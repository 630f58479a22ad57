use vstd::prelude::*;
use vstd::utf8::{
    decode_utf8, decode_utf8_encode_utf8, encode_utf8, encode_utf8_decode_utf8,
    encode_utf8_valid_utf8, valid_utf8,
};
use crate::Error;
use crate::array::Utf8Array;
use crate::dictionary_builder::{lemma_lookup_props, spec_lookup};
use crate::dictionary_deserializer::spec_dict_str;
use crate::integer::Integer;
use crate::integer_deserializer::spec_narrow;
use crate::offsets::Offset;
use crate::string_deserializer::spec_read_str;
use crate::views::PrimitiveView;

verus! {

/// Law (round trip, strings): a string value written into a string
/// column — its row holds the value's UTF-8 encoding and is marked valid,
/// as the builder's contract leaves it — is read back as exactly that
/// value.
pub proof fn lemma_string_round_trip<O: Offset>(arr: Utf8Array<O>, i: int, s: Seq<char>)
    requires
        arr.wf(),
        0 <= i < arr.spec_rows(),
        arr.spec_is_valid(i),
        arr.spec_row_data(i) == encode_utf8(s),
    ensures
        spec_read_str(arr, i) == Ok::<Seq<char>, Error>(s),
{
    encode_utf8_valid_utf8(s);
    encode_utf8_decode_utf8(s);
}

/// Law (round trip, integers): an integer value written into a
/// fixed-width column is read back unchanged when requested at any width
/// that holds the column's whole range.
pub proof fn lemma_integer_round_trip<T: Integer>(view: PrimitiveView<T>, i: int, lo: int, hi: int)
    requires
        view.wf(),
        0 <= i < view.spec_len(),
        view.spec_is_valid(i),
        lo <= T::min_spec(),
        T::max_spec() <= hi,
    ensures
        spec_narrow(view, i, lo, hi) == Ok::<int, Error>(view.spec_value(i).as_int()),
{
    view.spec_value(i).lemma_bounds();
}

/// Law (round trip, booleans): a boolean value written into a boolean
/// column is read back unchanged.
pub proof fn lemma_bool_round_trip(view: crate::views::BoolView, i: int)
    requires
        view.wf(),
        0 <= i < view.spec_len(),
        view.spec_is_valid(i),
    ensures
        view.spec_get_required(i) == Ok::<bool, Error>(view.spec_value(i)),
{
}

/// Law (round trip, null rows): a row written as null reads back as
/// absent, never as a value.
pub proof fn lemma_null_round_trip<O: Offset>(arr: Utf8Array<O>, i: int)
    requires
        arr.wf(),
        0 <= i < arr.spec_rows(),
        !arr.spec_is_valid(i),
    ensures
        arr.spec_is_some(i) == Ok::<bool, Error>(false),
        arr.spec_get_bytes(i) == Err::<Seq<u8>, Error>(Error::TypeMismatch),
{
}

/// Looking a value up after entering it finds it where it was entered,
/// and entering one value moves no other value's position.
pub proof fn lemma_lookup_push(table: Seq<Seq<char>>, v: Seq<char>, w: Seq<char>)
    ensures
        spec_lookup(table, v) is Some ==> spec_lookup(table.push(w), v) == spec_lookup(table, v),
        spec_lookup(table, v) is None && v == w ==> spec_lookup(table.push(w), v) == Some(
            table.len() as int,
        ),
    decreases table.len(),
{
    if table.len() == 0 {
        assert(table.push(w)[0] == w);
        assert(table.push(w).drop_first() =~= Seq::<Seq<char>>::empty());
    } else {
        assert(table.push(w)[0] == table[0]);
        assert(table.push(w).drop_first() =~= table.drop_first().push(w));
        lemma_lookup_push(table.drop_first(), v, w);
    }
}

/// Law (dictionary key stability): entering the same string value again,
/// with no reset in between, yields the same key that its first entry
/// was assigned; a value not yet in the table is assigned the next
/// unused key — the table's length, which no earlier row can hold.
pub proof fn lemma_dictionary_key_stability(table: Seq<Seq<char>>, v: Seq<char>)
    ensures
        ({
            let first_key = match spec_lookup(table, v) {
                Some(j) => j,
                None => table.len() as int,
            };
            let table_after = match spec_lookup(table, v) {
                Some(_) => table,
                None => table.push(v),
            };
            spec_lookup(table_after, v) == Some(first_key)
        }),
{
    lemma_lookup_props(table, v);
    lemma_lookup_push(table, v, v);
}

/// Law (round trip, dictionary rows): a row whose key points at a valid
/// entry of the value column — as every key written by the dictionary
/// builder does — reads back as exactly that entry's string.
pub proof fn lemma_dictionary_round_trip<K: Integer, V: Offset>(
    keys: PrimitiveView<K>,
    values: Utf8Array<V>,
    i: int,
    s: Seq<char>,
)
    requires
        keys.wf(),
        values.wf(),
        0 <= i < keys.spec_len(),
        keys.spec_is_valid(i),
        0 <= keys.spec_value(i).as_int() < values.spec_rows(),
        values.spec_is_valid(keys.spec_value(i).as_int()),
        values.spec_row_data(keys.spec_value(i).as_int()) == encode_utf8(s),
    ensures
        spec_dict_str(keys, values, i) == Ok::<Seq<char>, Error>(s),
{
    encode_utf8_valid_utf8(s);
    encode_utf8_decode_utf8(s);
}

/// Law (round trip, end to end): a string value written into a string
/// builder and carried into its finished column is read back from that
/// column unchanged.
pub proof fn lemma_built_string_round_trip<O: Offset>(
    b: crate::utf8_builder::Utf8Builder<O>,
    arr: Utf8Array<O>,
    i: int,
    s: Seq<char>,
)
    requires
        b.wf(),
        crate::builder::utf8_built(b, arr),
        0 <= i < b.spec_rows(),
        b.spec_is_valid(i),
        b.spec_row_data(i) == encode_utf8(s),
    ensures
        spec_read_str(arr, i) == Ok::<Seq<char>, Error>(s),
{
    lemma_string_round_trip(arr, i, s);
}

/// Law (offset monotonicity): a well-formed variable-length column
/// starts its offsets at zero and never lets them decrease.
pub proof fn lemma_offsets_monotone<O: Offset>(arr: Utf8Array<O>)
    requires
        arr.wf(),
    ensures
        arr.offset_ints()[0] == 0,
        forall|i: int|
            0 <= i < arr.spec_rows() ==> #[trigger] arr.offset_ints()[i] <= arr.offset_ints()[i
                + 1],
{
}

/// Decoding a valid byte sequence and re-encoding it gives the bytes
/// back: reading text never loses information.
pub proof fn lemma_utf8_faithful(bytes: Seq<u8>)
    requires
        valid_utf8(bytes),
    ensures
        encode_utf8(decode_utf8(bytes)) == bytes,
{
    decode_utf8_encode_utf8(bytes);
}

} // verus!
