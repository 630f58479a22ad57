use vstd::prelude::*;
use vstd::utf8::{decode_utf8, valid_utf8};
use crate::Error;
use crate::array::Utf8Array;
use crate::offsets::Offset;

verus! {

/// Relies on `String::from_utf8`: it succeeds exactly on valid UTF-8 and
/// returns the string that decodes those bytes.
#[verifier::external_body]
pub(crate) fn string_from_utf8(bytes: Vec<u8>) -> (r: Option<String>)
    ensures
        match r {
            Some(s) => valid_utf8(bytes@) && s@ == decode_utf8(bytes@),
            None => !valid_utf8(bytes@),
        },
{
    String::from_utf8(bytes).ok()
}

/// The exact outcome of reading row `idx` of a string column as text:
/// the row's bytes decoded as UTF-8, or a conversion error where they are
/// not valid UTF-8.
pub open spec fn spec_read_str<O: Offset>(view: Utf8Array<O>, idx: int) -> Result<
    Seq<char>,
    Error,
> {
    match view.spec_get_bytes(idx) {
        Err(e) => Err(e),
        Ok(bytes) => if valid_utf8(bytes) {
            Ok(decode_utf8(bytes))
        } else {
            Err(Error::Conversion)
        },
    }
}

/// Reads any row of a string column by index.
#[derive(Debug, Clone, PartialEq)]
pub struct StringDeserializer<O: Offset> {
    pub path: String,
    pub view: Utf8Array<O>,
}

impl StringDeserializer<i32> {
    /// Supplies this column's error context where absent.
    pub fn annotate(&self, annotations: &mut Vec<(String, String)>)
        ensures
            crate::context::spec_annotated(
                old(annotations)@,
                final(annotations)@,
                self.path@,
                "Utf8"@,
            ),
    {
        crate::context::annotate_with(annotations, self.path.as_str(), "Utf8");
    }
}

impl StringDeserializer<i64> {
    /// Supplies this column's error context where absent.
    pub fn annotate(&self, annotations: &mut Vec<(String, String)>)
        ensures
            crate::context::spec_annotated(
                old(annotations)@,
                final(annotations)@,
                self.path@,
                "LargeUtf8"@,
            ),
    {
        crate::context::annotate_with(annotations, self.path.as_str(), "LargeUtf8");
    }
}

impl<O: Offset> StringDeserializer<O> {
    pub open spec fn wf(self) -> bool {
        self.view.wf()
    }

    pub fn new(path: String, view: Utf8Array<O>) -> (r: Self)
        ensures
            r.path == path,
            r.view == view,
    {
        StringDeserializer { path, view }
    }

    pub fn is_some(&self, idx: usize) -> (r: Result<bool, Error>)
        requires
            self.wf(),
        ensures
            r == self.view.spec_is_some(idx as int),
    {
        self.view.is_some(idx)
    }

    /// The raw bytes of a non-null row.
    pub fn deserialize_bytes(&self, idx: usize) -> (r: Result<Vec<u8>, Error>)
        requires
            self.wf(),
        ensures
            match r {
                Ok(v) => self.view.spec_get_bytes(idx as int) == Ok::<Seq<u8>, Error>(v@),
                Err(e) => self.view.spec_get_bytes(idx as int) == Err::<Seq<u8>, Error>(e),
            },
    {
        self.view.get_bytes(idx)
    }

    /// The text of a non-null row; bytes that are not valid UTF-8 are a
    /// conversion error.
    pub fn deserialize_str(&self, idx: usize) -> (r: Result<String, Error>)
        requires
            self.wf(),
        ensures
            match r {
                Ok(s) => spec_read_str(self.view, idx as int) == Ok::<Seq<char>, Error>(s@),
                Err(e) => spec_read_str(self.view, idx as int) == Err::<Seq<char>, Error>(e),
            },
    {
        let bytes = self.view.get_bytes(idx)?;
        match string_from_utf8(bytes) {
            Some(s) => Ok(s),
            None => Err(Error::Conversion),
        }
    }
}

} // verus!
