use vstd::prelude::*;
use vstd::string::StringSliceAdditionalSpecFns;
use vstd::utf8::encode_utf8;
use crate::Error;
use crate::array::{DictionaryKeys, PrimitiveArray, Utf8Array};
use crate::bits::pack_bits;
use crate::integer::Integer;
use crate::offsets::Offset;
use crate::utf8_builder::Utf8Builder;
use crate::validity::{push_validity, push_validity_default, validity_view};

verus! {

/// The configured width of a dictionary's key column.
#[derive(Debug, Clone, Copy, PartialEq, Eq, Structural)]
pub enum DictionaryKeyKind {
    I8,
    I16,
    I32,
    I64,
    U8,
    U16,
    U32,
    U64,
}

impl DictionaryKeyKind {
    /// The largest key the configured width can hold; a dictionary with
    /// more distinct values than this exhausts its key space.
    pub open spec fn max_key(self) -> int {
        match self {
            DictionaryKeyKind::I8 => i8::MAX as int,
            DictionaryKeyKind::I16 => i16::MAX as int,
            DictionaryKeyKind::I32 => i32::MAX as int,
            DictionaryKeyKind::I64 => i64::MAX as int,
            DictionaryKeyKind::U8 => u8::MAX as int,
            DictionaryKeyKind::U16 => u16::MAX as int,
            DictionaryKeyKind::U32 => u32::MAX as int,
            DictionaryKeyKind::U64 => u64::MAX as int,
        }
    }
}

/// The first position of `v` in the deduplicated value table, if any.
pub open spec fn spec_lookup(table: Seq<Seq<char>>, v: Seq<char>) -> Option<int>
    decreases table.len(),
{
    if table.len() == 0 {
        None
    } else if table[0] == v {
        Some(0int)
    } else {
        match spec_lookup(table.drop_first(), v) {
            Some(j) => Some(j + 1),
            None => None,
        }
    }
}

/// What `spec_lookup` finds is the first match; when it finds nothing,
/// there is no match.
pub proof fn lemma_lookup_props(table: Seq<Seq<char>>, v: Seq<char>)
    ensures
        match spec_lookup(table, v) {
            Some(j) => 0 <= j < table.len() && table[j] == v && forall|k: int|
                0 <= k < j ==> table[k] != v,
            None => forall|k: int| 0 <= k < table.len() ==> table[k] != v,
        },
    decreases table.len(),
{
    if table.len() > 0 && table[0] != v {
        lemma_lookup_props(table.drop_first(), v);
        match spec_lookup(table, v) {
            Some(j) => {
                assert forall|k: int| 0 <= k < j implies table[k] != v by {
                    if k > 0 {
                        assert(table.drop_first()[k - 1] == table[k]);
                        assert(table.drop_first()[k - 1] != v);
                    }
                }
            },
            None => {
                assert forall|k: int| 0 <= k < table.len() implies table[k] != v by {
                    if k > 0 {
                        assert(table.drop_first()[k - 1] == table[k]);
                        assert(table.drop_first()[k - 1] != v);
                    }
                }
            },
        }
    }
}

/// A builder whose values and table are those of a well-formed builder
/// keeps the correspondence between its table entries and its value rows.
proof fn lemma_row_data_transfer<O: Offset>(a: DictionaryUtf8Builder<O>, b: DictionaryUtf8Builder<O>)
    requires
        a.wf(),
        b.values == a.values,
        b.table@ == a.table@,
    ensures
        forall|i: int|
            0 <= i < b.table@.len() ==> b.values.spec_row_data(i) == encode_utf8(
                #[trigger] b.table_view()[i],
            ),
{
    assert forall|i: int|
        0 <= i < b.table@.len() implies b.values.spec_row_data(i) == encode_utf8(
        #[trigger] b.table_view()[i],
    ) by {
        assert(a.values.spec_row_data(i) == encode_utf8(a.table_view()[i]));
    }
}

/// Every configured key width has a non-negative key space.
pub proof fn lemma_max_key_nonneg(kind: DictionaryKeyKind)
    ensures
        kind.max_key() >= 0,
{
}

/// Accumulates a dictionary-encoded string column: one key per row into a
/// deduplicated value table. The table — the key mapping — survives
/// `build_array`, by design, so that several chunks of one logical column
/// share consistent keys; only the per-row keys reset.
#[derive(Debug, Clone, PartialEq)]
pub struct DictionaryUtf8Builder<O: Offset> {
    pub key_kind: DictionaryKeyKind,
    pub key_validity: Option<Vec<bool>>,
    pub keys: Vec<usize>,
    pub table: Vec<String>,
    pub values: Utf8Builder<O>,
}

impl<O: Offset> DictionaryUtf8Builder<O> {
    /// The deduplicated values as character sequences.
    pub open spec fn table_view(self) -> Seq<Seq<char>> {
        self.table@.map(|_i: int, s: String| s@)
    }

    pub open spec fn wf(self) -> bool {
        &&& match validity_view(self.key_validity) {
            Some(s) => s.len() == self.keys@.len(),
            None => true,
        }
        &&& self.values.wf()
        &&& self.values.validity is None
        &&& self.values.spec_rows() == self.table@.len()
        &&& forall|i: int|
            0 <= i < self.table@.len() ==> self.values.spec_row_data(i) == encode_utf8(
                #[trigger] self.table_view()[i],
            )
        &&& self.table@.len() <= self.key_kind.max_key() + 1
        &&& forall|i: int|
            0 <= i < self.keys@.len() ==> #[trigger] self.keys@[i] <= self.key_kind.max_key()
        &&& forall|i: int|
            0 <= i < self.keys@.len() && self.spec_is_valid(i) ==> (#[trigger] self.keys@[i]
                < self.table@.len() || self.keys@[i] == 0)
    }

    /// The number of rows written so far.
    pub open spec fn spec_rows(self) -> int {
        self.keys@.len() as int
    }

    pub open spec fn spec_is_valid(self, i: int) -> bool {
        match validity_view(self.key_validity) {
            Some(s) => s[i],
            None => true,
        }
    }

    /// The key stored for row `i`.
    pub open spec fn spec_key(self, i: int) -> int {
        self.keys@[i] as int
    }

    pub fn new(key_kind: DictionaryKeyKind, is_nullable: bool) -> (r: Self)
        ensures
            r.wf(),
            r.spec_rows() == 0,
            r.table_view() == Seq::<Seq<char>>::empty(),
            r.key_kind == key_kind,
            r.key_validity is Some <==> is_nullable,
    {
        let r = DictionaryUtf8Builder {
            key_kind,
            key_validity: if is_nullable {
                Some(Vec::new())
            } else {
                None
            },
            keys: Vec::new(),
            table: Vec::new(),
            values: Utf8Builder::new(false),
        };
        proof {
            assert(r.table_view() =~= Seq::<Seq<char>>::empty());
        }
        r
    }

    /// Writes a default entry: a null row on a nullable column, a key-0
    /// placeholder otherwise. The table is untouched.
    pub fn serialize_default(&mut self) -> (r: Result<(), Error>)
        requires
            old(self).wf(),
        ensures
            r == Ok::<(), Error>(()),
            final(self).wf(),
            final(self).key_kind == old(self).key_kind,
            final(self).key_validity is Some <==> old(self).key_validity is Some,
            final(self).spec_rows() == old(self).spec_rows() + 1,
            !(final(self).key_validity is Some) || !final(self).spec_is_valid(
                old(self).spec_rows(),
            ),
            final(self).table_view() == old(self).table_view(),
            final(self).values == old(self).values,
            forall|i: int|
                0 <= i < old(self).spec_rows() ==> final(self).spec_is_valid(i)
                    == old(self).spec_is_valid(i) && final(self).spec_key(i)
                    == old(self).spec_key(i),
    {
        proof {
            lemma_max_key_nonneg(self.key_kind);
        }
        push_validity_default(&mut self.key_validity);
        self.keys.push(0);
        proof {
            lemma_row_data_transfer(*old(self), *self);
        }
        Ok(())
    }

    /// Writes an explicit null row. On a non-nullable column this is a
    /// schema error and the builder is unchanged.
    pub fn serialize_none(&mut self) -> (r: Result<(), Error>)
        requires
            old(self).wf(),
        ensures
            final(self).wf(),
            final(self).key_kind == old(self).key_kind,
            final(self).key_validity is Some <==> old(self).key_validity is Some,
            r is Ok <==> old(self).key_validity is Some,
            r is Err ==> r == Err::<(), Error>(Error::Schema) && *final(self) == *old(self),
            r is Ok ==> {
                &&& final(self).spec_rows() == old(self).spec_rows() + 1
                &&& !final(self).spec_is_valid(old(self).spec_rows())
                &&& final(self).table_view() == old(self).table_view()
                &&& final(self).values == old(self).values
                &&& forall|i: int|
                    0 <= i < old(self).spec_rows() ==> final(self).spec_is_valid(i)
                        == old(self).spec_is_valid(i) && final(self).spec_key(i)
                        == old(self).spec_key(i)
            },
    {
        proof {
            lemma_max_key_nonneg(self.key_kind);
        }
        push_validity(&mut self.key_validity, false)?;
        self.keys.push(0);
        proof {
            lemma_row_data_transfer(*old(self), *self);
        }
        Ok(())
    }

    /// Writes one string value. A value already in the table gets its
    /// existing (first-assigned) key; a new value gets the next unused
    /// key — the table length — and enters the table. Assigning a key
    /// beyond the configured width, or growing the value bytes beyond the
    /// offset type, is an overflow error that leaves the builder unchanged.
    pub fn serialize_str(&mut self, v: &str) -> (r: Result<(), Error>)
        requires
            old(self).wf(),
        ensures
            final(self).wf(),
            final(self).key_kind == old(self).key_kind,
            final(self).key_validity is Some <==> old(self).key_validity is Some,
            match r {
                Ok(()) => {
                    &&& final(self).spec_rows() == old(self).spec_rows() + 1
                    &&& final(self).spec_is_valid(old(self).spec_rows())
                    &&& forall|i: int|
                        0 <= i < old(self).spec_rows() ==> final(self).spec_is_valid(i)
                            == old(self).spec_is_valid(i) && final(self).spec_key(i)
                            == old(self).spec_key(i)
                    &&& match spec_lookup(old(self).table_view(), v@) {
                        Some(j) => {
                            &&& final(self).spec_key(old(self).spec_rows()) == j
                            &&& final(self).table_view() == old(self).table_view()
                            &&& final(self).values == old(self).values
                        },
                        None => {
                            &&& old(self).table_view().len() <= old(self).key_kind.max_key()
                            &&& old(self).values.buffer@.len() + v.spec_bytes().len()
                                <= O::max_spec()
                            &&& final(self).spec_key(old(self).spec_rows()) == old(
                                self,
                            ).table_view().len()
                            &&& final(self).table_view() == old(self).table_view().push(v@)
                        },
                    }
                },
                Err(e) => {
                    &&& *final(self) == *old(self)
                    &&& spec_lookup(old(self).table_view(), v@) is None
                    &&& (e matches Error::Overflow(_))
                    &&& if old(self).table_view().len() > old(self).key_kind.max_key() {
                        e == Error::Overflow(old(self).table_view().len() as i128)
                    } else {
                        old(self).values.buffer@.len() + v.spec_bytes().len() > O::max_spec()
                            && (v.spec_bytes().len() <= usize::MAX ==> e == Error::Overflow(
                            (old(self).values.buffer@.len() + v.spec_bytes().len()) as i128,
                        ))
                    }
                },
            },
    {
        let needle: String = v.to_owned();
        let n = self.table.len();
        let mut j: usize = 0;
        let mut found: Option<usize> = None;
        while j < n
            invariant
                n == self.table@.len(),
                j <= n,
                needle@ == v@,
                match found {
                    Some(f) => f < n && self.table_view()[f as int] == v@ && forall|k: int|
                        0 <= k < f ==> self.table_view()[k] != v@,
                    None => forall|k: int| 0 <= k < j ==> self.table_view()[k] != v@,
                },
                found is Some ==> j == n,
            decreases n - j,
        {
            if self.table[j].eq(&needle) {
                found = Some(j);
                j = n;
            } else {
                j += 1;
            }
        }
        proof {
            lemma_lookup_props(self.table_view(), v@);
        }
        match found {
            Some(f) => {
                let _ = push_validity(&mut self.key_validity, true);
                self.keys.push(f);
                Ok(())
            },
            None => {
                if !key_fits(self.key_kind, n) {
                    return Err(Error::Overflow(n as i128));
                }
                self.values.serialize_str(v)?;
                self.table.push(needle);
                let _ = push_validity(&mut self.key_validity, true);
                self.keys.push(n);
                proof {
                    let fin = *self;
                    let orig = *old(self);
                    assert(fin.table_view() =~= orig.table_view().push(v@));
                    assert forall|i: int|
                        0 <= i < fin.table@.len() implies fin.values.spec_row_data(i)
                        == encode_utf8(#[trigger] fin.table_view()[i]) by {
                        if i < orig.table@.len() {
                            assert(orig.values.spec_row_data(i) == encode_utf8(
                                orig.table_view()[i],
                            ));
                        }
                    }
                }
                Ok(())
            },
        }
    }

    /// Yields the finished key and value columns and resets the per-row
    /// keys, while the value table — and so the key mapping — is retained
    /// for the next chunk. Row `i` of the key column holds `spec_key(i)`
    /// with the row's validity; the value column holds the table in key
    /// order.
    pub fn build_array(&mut self) -> (r: (DictionaryKeys, Utf8Array<O>))
        requires
            old(self).wf(),
        ensures
            final(self).wf(),
            final(self).spec_rows() == 0,
            final(self).key_kind == old(self).key_kind,
            final(self).key_validity is Some <==> old(self).key_validity is Some,
            final(self).table_view() == old(self).table_view(),
            final(self).values == old(self).values,
            keys_match(r.0, *old(self)),
            r.1.wf(),
            r.1.spec_rows() == old(self).table_view().len(),
            forall|i: int|
                0 <= i < old(self).table_view().len() ==> r.1.spec_is_valid(i)
                    && r.1.spec_row_data(i) =~= encode_utf8(old(self).table_view()[i]),
    {
        let values = self.values.to_array();
        let mut keys: Vec<usize> = Vec::new();
        core::mem::swap(&mut keys, &mut self.keys);
        let mut key_validity: Option<Vec<bool>> = if self.key_validity.is_some() {
            Some(Vec::new())
        } else {
            None
        };
        core::mem::swap(&mut key_validity, &mut self.key_validity);
        let packed_validity = match key_validity {
            Some(bits) => Some(pack_bits(&bits)),
            None => None,
        };
        let ghost snap = *old(self);
        let keys_arr = match self.key_kind {
            DictionaryKeyKind::I8 => DictionaryKeys::I8(
                build_keys::<i8, O>(&keys, packed_validity, Ghost(snap)),
            ),
            DictionaryKeyKind::I16 => DictionaryKeys::I16(
                build_keys::<i16, O>(&keys, packed_validity, Ghost(snap)),
            ),
            DictionaryKeyKind::I32 => DictionaryKeys::I32(
                build_keys::<i32, O>(&keys, packed_validity, Ghost(snap)),
            ),
            DictionaryKeyKind::I64 => DictionaryKeys::I64(
                build_keys::<i64, O>(&keys, packed_validity, Ghost(snap)),
            ),
            DictionaryKeyKind::U8 => DictionaryKeys::U8(
                build_keys::<u8, O>(&keys, packed_validity, Ghost(snap)),
            ),
            DictionaryKeyKind::U16 => DictionaryKeys::U16(
                build_keys::<u16, O>(&keys, packed_validity, Ghost(snap)),
            ),
            DictionaryKeyKind::U32 => DictionaryKeys::U32(
                build_keys::<u32, O>(&keys, packed_validity, Ghost(snap)),
            ),
            DictionaryKeyKind::U64 => DictionaryKeys::U64(
                build_keys::<u64, O>(&keys, packed_validity, Ghost(snap)),
            ),
        };
        proof {
            lemma_row_data_transfer(*old(self), *self);
        }
        (keys_arr, values)
    }
}

/// The key column reproduces the builder's rows: same length, same
/// validity, and for each valid row the same key value.
pub open spec fn prim_keys_match<T: Integer, O: Offset>(
    arr: PrimitiveArray<T>,
    b: DictionaryUtf8Builder<O>,
) -> bool {
    &&& arr.wf()
    &&& arr.values@.len() == b.spec_rows()
    &&& arr.validity is Some <==> b.key_validity is Some
    &&& forall|i: int| 0 <= i < b.spec_rows() ==> arr.spec_is_valid(i) == b.spec_is_valid(i)
    &&& forall|i: int|
        0 <= i < b.spec_rows() ==> (#[trigger] arr.values@[i]).as_int() == b.spec_key(i)
}

pub open spec fn keys_match<O: Offset>(keys: DictionaryKeys, b: DictionaryUtf8Builder<O>) -> bool {
    match keys {
        DictionaryKeys::I8(arr) => b.key_kind == DictionaryKeyKind::I8 && prim_keys_match(arr, b),
        DictionaryKeys::I16(arr) => b.key_kind == DictionaryKeyKind::I16 && prim_keys_match(
            arr,
            b,
        ),
        DictionaryKeys::I32(arr) => b.key_kind == DictionaryKeyKind::I32 && prim_keys_match(
            arr,
            b,
        ),
        DictionaryKeys::I64(arr) => b.key_kind == DictionaryKeyKind::I64 && prim_keys_match(
            arr,
            b,
        ),
        DictionaryKeys::U8(arr) => b.key_kind == DictionaryKeyKind::U8 && prim_keys_match(arr, b),
        DictionaryKeys::U16(arr) => b.key_kind == DictionaryKeyKind::U16 && prim_keys_match(
            arr,
            b,
        ),
        DictionaryKeys::U32(arr) => b.key_kind == DictionaryKeyKind::U32 && prim_keys_match(
            arr,
            b,
        ),
        DictionaryKeys::U64(arr) => b.key_kind == DictionaryKeyKind::U64 && prim_keys_match(
            arr,
            b,
        ),
    }
}

/// Whether `next` is still a representable key of the configured width.
fn key_fits(kind: DictionaryKeyKind, next: usize) -> (r: bool)
    ensures
        r == (next <= kind.max_key()),
{
    match kind {
        DictionaryKeyKind::I8 => next <= i8::MAX as usize,
        DictionaryKeyKind::I16 => next <= i16::MAX as usize,
        DictionaryKeyKind::I32 => (next as u64) <= i32::MAX as u64,
        DictionaryKeyKind::I64 => (next as u128) <= i64::MAX as u128,
        DictionaryKeyKind::U8 => next <= u8::MAX as usize,
        DictionaryKeyKind::U16 => next <= u16::MAX as usize,
        DictionaryKeyKind::U32 => (next as u64) <= u32::MAX as u64,
        DictionaryKeyKind::U64 => (next as u128) <= u64::MAX as u128,
    }
}

/// Converts the accumulated row keys to the configured key width.
fn build_keys<T: Integer, O: Offset>(
    keys: &Vec<usize>,
    validity: Option<Vec<u8>>,
    snap: Ghost<DictionaryUtf8Builder<O>>,
) -> (r: PrimitiveArray<T>)
    requires
        keys@ == snap@.keys@,
        snap@.wf(),
        forall|i: int| 0 <= i < keys@.len() ==> #[trigger] keys@[i] <= T::max_spec(),
        match validity {
            Some(v) => match validity_view(snap@.key_validity) {
                Some(s) => s.len() == keys@.len() && keys@.len() <= v@.len() * 8 && forall|i: int|
                    0 <= i < keys@.len() ==> crate::bits::spec_bit(v@, i) == s[i],
                None => false,
            },
            None => snap@.key_validity is None,
        },
    ensures
        prim_keys_match(r, snap@),
{
    let mut values: Vec<T> = Vec::new();
    let mut i: usize = 0;
    while i < keys.len()
        invariant
            i <= keys@.len(),
            values@.len() == i,
            forall|k: int| 0 <= k < i ==> #[trigger] keys@[k] <= T::max_spec(),
            forall|k: int| 0 <= k < i ==> (#[trigger] values@[k]).as_int() == keys@[k],
            forall|k: int| 0 <= k < keys@.len() ==> #[trigger] keys@[k] <= T::max_spec(),
        decreases keys@.len() - i,
    {
        values.push(T::from_usize(keys[i]));
        i += 1;
    }
    PrimitiveArray { values, validity }
}

} // verus!
