use vstd::prelude::*;
use vstd::utf8::{decode_utf8, valid_utf8};
use crate::Error;
use crate::array::Utf8Array;
use crate::integer::Integer;
use crate::offsets::Offset;
use crate::string_deserializer::string_from_utf8;
use crate::views::PrimitiveView;

verus! {

/// The exact outcome of reading row `idx` of a dictionary column's
/// bytes: the row's key, bounds-checked against the value column,
/// resolved to that column's entry.
pub open spec fn spec_dict_bytes<K: Integer, V: Offset>(
    keys: PrimitiveView<K>,
    values: Utf8Array<V>,
    idx: int,
) -> Result<Seq<u8>, Error> {
    match keys.spec_get_required(idx) {
        Err(e) => Err(e),
        Ok(k) => if k.as_int() < 0 || k.as_int() >= values.spec_rows() {
            Err(Error::OutOfRange)
        } else {
            values.spec_get_bytes(k.as_int())
        },
    }
}

/// The same read as text: the resolved bytes decoded as UTF-8.
pub open spec fn spec_dict_str<K: Integer, V: Offset>(
    keys: PrimitiveView<K>,
    values: Utf8Array<V>,
    idx: int,
) -> Result<Seq<char>, Error> {
    match spec_dict_bytes(keys, values, idx) {
        Err(e) => Err(e),
        Ok(bytes) => if valid_utf8(bytes) {
            Ok(decode_utf8(bytes))
        } else {
            Err(Error::Conversion)
        },
    }
}

/// Reads any row of a dictionary-encoded string column by index: the
/// row's integer key selects an entry of the deduplicated value column.
#[derive(Debug, Clone, PartialEq)]
pub struct DictionaryDeserializer<K: Integer, V: Offset> {
    pub path: String,
    pub keys: PrimitiveView<K>,
    pub values: Utf8Array<V>,
}

impl<K: Integer, V: Offset> DictionaryDeserializer<K, V> {
    pub open spec fn wf(self) -> bool {
        &&& self.keys.wf()
        &&& self.values.wf()
    }

    pub fn new(path: String, keys: PrimitiveView<K>, values: Utf8Array<V>) -> (r: Self)
        ensures
            r.path == path,
            r.keys == keys,
            r.values == values,
    {
        DictionaryDeserializer { path, keys, values }
    }

    /// Supplies this column's error context where absent.
    pub fn annotate(&self, annotations: &mut Vec<(String, String)>)
        ensures
            crate::context::spec_annotated(
                old(annotations)@,
                final(annotations)@,
                self.path@,
                "Dictionary"@,
            ),
    {
        crate::context::annotate_with(annotations, self.path.as_str(), "Dictionary");
    }

    pub fn is_some(&self, idx: usize) -> (r: Result<bool, Error>)
        requires
            self.wf(),
        ensures
            r == self.keys.spec_is_some(idx as int),
    {
        self.keys.is_some(idx)
    }

    /// The resolved bytes of a non-null row; a key outside the value
    /// column is out of range.
    pub fn deserialize_bytes(&self, idx: usize) -> (r: Result<Vec<u8>, Error>)
        requires
            self.wf(),
        ensures
            match r {
                Ok(v) => spec_dict_bytes(self.keys, self.values, idx as int) == Ok::<
                    Seq<u8>,
                    Error,
                >(v@),
                Err(e) => spec_dict_bytes(self.keys, self.values, idx as int) == Err::<
                    Seq<u8>,
                    Error,
                >(e),
            },
    {
        let k = self.keys.get_required(idx)?;
        proof {
            K::lemma_range();
            k.lemma_bounds();
        }
        let ku: u64 = match k.into_u64() {
            Ok(v) => v,
            Err(_) => {
                return Err(Error::OutOfRange);
            },
        };
        let n = self.values.len();
        if ku >= n as u64 {
            return Err(Error::OutOfRange);
        }
        self.values.get_bytes(ku as usize)
    }

    /// The resolved text of a non-null row.
    pub fn deserialize_str(&self, idx: usize) -> (r: Result<String, Error>)
        requires
            self.wf(),
        ensures
            match r {
                Ok(s) => spec_dict_str(self.keys, self.values, idx as int) == Ok::<
                    Seq<char>,
                    Error,
                >(s@),
                Err(e) => spec_dict_str(self.keys, self.values, idx as int) == Err::<
                    Seq<char>,
                    Error,
                >(e),
            },
    {
        let bytes = self.deserialize_bytes(idx)?;
        match string_from_utf8(bytes) {
            Some(s) => Ok(s),
            None => Err(Error::Conversion),
        }
    }
}

} // verus!
