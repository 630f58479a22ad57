use vstd::prelude::*;
use crate::Error;
use crate::integer::Integer;
use crate::views::PrimitiveView;

verus! {

/// The exact outcome of a range-checked read: the row's raw value where
/// the read itself succeeds, narrowed to the requested bounds, an
/// overflow error where the value does not fit them.
pub open spec fn spec_narrow<T: Integer>(
    view: PrimitiveView<T>,
    idx: int,
    lo: int,
    hi: int,
) -> Result<int, Error> {
    match view.spec_get_required(idx) {
        Err(e) => Err(e),
        Ok(v) => if lo <= v.as_int() <= hi {
            Ok(v.as_int())
        } else {
            Err(Error::Overflow(v.as_int() as i128))
        },
    }
}

/// Reads any row of a fixed-width integer column as any requested integer
/// width, with a runtime range check; a value that does not fit the
/// requested width is an overflow error, never a silent truncation.
#[derive(Debug, Clone, PartialEq)]
pub struct IntegerDeserializer<T: Integer> {
    pub path: String,
    pub view: PrimitiveView<T>,
}

impl<T: Integer> IntegerDeserializer<T> {
    pub open spec fn wf(self) -> bool {
        self.view.wf()
    }

    pub fn new(path: String, view: PrimitiveView<T>) -> (r: Self)
        ensures
            r.path == path,
            r.view == view,
    {
        IntegerDeserializer { path, view }
    }

    /// Supplies this column's error context — its field path and its
    /// physical type name — where the caller has not recorded one yet.
    pub fn annotate(&self, annotations: &mut Vec<(String, String)>)
        ensures
            crate::context::spec_annotated(
                old(annotations)@,
                final(annotations)@,
                self.path@,
                T::spec_data_type_name(),
            ),
    {
        crate::context::annotate_with(annotations, self.path.as_str(), T::data_type_name());
    }

    pub fn is_some(&self, idx: usize) -> (r: Result<bool, Error>)
        requires
            self.wf(),
        ensures
            r == self.view.spec_is_some(idx as int),
    {
        self.view.is_some(idx)
    }

    pub fn deserialize_bool(&self, idx: usize) -> (r: Result<bool, Error>)
        requires
            self.wf(),
        ensures
            match r {
                Ok(b) => spec_narrow(self.view, idx as int, 0, 1) == Ok::<int, Error>(
                    if b {
                        1int
                    } else {
                        0int
                    },
                ),
                Err(e) => spec_narrow(self.view, idx as int, 0, 1) == Err::<int, Error>(e),
            },
    {
        self.view.get_required(idx)?.into_bool()
    }

    pub fn deserialize_i8(&self, idx: usize) -> (r: Result<i8, Error>)
        requires
            self.wf(),
        ensures
            match r {
                Ok(v) => spec_narrow(self.view, idx as int, i8::MIN as int, i8::MAX as int)
                    == Ok::<int, Error>(v as int),
                Err(e) => spec_narrow(self.view, idx as int, i8::MIN as int, i8::MAX as int)
                    == Err::<int, Error>(e),
            },
    {
        self.view.get_required(idx)?.into_i8()
    }

    pub fn deserialize_i16(&self, idx: usize) -> (r: Result<i16, Error>)
        requires
            self.wf(),
        ensures
            match r {
                Ok(v) => spec_narrow(self.view, idx as int, i16::MIN as int, i16::MAX as int)
                    == Ok::<int, Error>(v as int),
                Err(e) => spec_narrow(self.view, idx as int, i16::MIN as int, i16::MAX as int)
                    == Err::<int, Error>(e),
            },
    {
        self.view.get_required(idx)?.into_i16()
    }

    pub fn deserialize_i32(&self, idx: usize) -> (r: Result<i32, Error>)
        requires
            self.wf(),
        ensures
            match r {
                Ok(v) => spec_narrow(self.view, idx as int, i32::MIN as int, i32::MAX as int)
                    == Ok::<int, Error>(v as int),
                Err(e) => spec_narrow(self.view, idx as int, i32::MIN as int, i32::MAX as int)
                    == Err::<int, Error>(e),
            },
    {
        self.view.get_required(idx)?.into_i32()
    }

    pub fn deserialize_i64(&self, idx: usize) -> (r: Result<i64, Error>)
        requires
            self.wf(),
        ensures
            match r {
                Ok(v) => spec_narrow(self.view, idx as int, i64::MIN as int, i64::MAX as int)
                    == Ok::<int, Error>(v as int),
                Err(e) => spec_narrow(self.view, idx as int, i64::MIN as int, i64::MAX as int)
                    == Err::<int, Error>(e),
            },
    {
        self.view.get_required(idx)?.into_i64()
    }

    pub fn deserialize_u8(&self, idx: usize) -> (r: Result<u8, Error>)
        requires
            self.wf(),
        ensures
            match r {
                Ok(v) => spec_narrow(self.view, idx as int, 0, u8::MAX as int) == Ok::<
                    int,
                    Error,
                >(v as int),
                Err(e) => spec_narrow(self.view, idx as int, 0, u8::MAX as int) == Err::<
                    int,
                    Error,
                >(e),
            },
    {
        self.view.get_required(idx)?.into_u8()
    }

    pub fn deserialize_u16(&self, idx: usize) -> (r: Result<u16, Error>)
        requires
            self.wf(),
        ensures
            match r {
                Ok(v) => spec_narrow(self.view, idx as int, 0, u16::MAX as int) == Ok::<
                    int,
                    Error,
                >(v as int),
                Err(e) => spec_narrow(self.view, idx as int, 0, u16::MAX as int) == Err::<
                    int,
                    Error,
                >(e),
            },
    {
        self.view.get_required(idx)?.into_u16()
    }

    pub fn deserialize_u32(&self, idx: usize) -> (r: Result<u32, Error>)
        requires
            self.wf(),
        ensures
            match r {
                Ok(v) => spec_narrow(self.view, idx as int, 0, u32::MAX as int) == Ok::<
                    int,
                    Error,
                >(v as int),
                Err(e) => spec_narrow(self.view, idx as int, 0, u32::MAX as int) == Err::<
                    int,
                    Error,
                >(e),
            },
    {
        self.view.get_required(idx)?.into_u32()
    }

    pub fn deserialize_u64(&self, idx: usize) -> (r: Result<u64, Error>)
        requires
            self.wf(),
        ensures
            match r {
                Ok(v) => spec_narrow(self.view, idx as int, 0, u64::MAX as int) == Ok::<
                    int,
                    Error,
                >(v as int),
                Err(e) => spec_narrow(self.view, idx as int, 0, u64::MAX as int) == Err::<
                    int,
                    Error,
                >(e),
            },
    {
        self.view.get_required(idx)?.into_u64()
    }

    /// Reads a non-null row as a character: the value, widened to 32
    /// bits, must be a Unicode scalar value; any other number is a
    /// conversion error.
    pub fn deserialize_char(&self, idx: usize) -> (r: Result<char, Error>)
        requires
            self.wf(),
        ensures
            match r {
                Ok(c) => spec_narrow(self.view, idx as int, 0, u32::MAX as int) == Ok::<
                    int,
                    Error,
                >(c as u32 as int),
                Err(e) => match spec_narrow(self.view, idx as int, 0, u32::MAX as int) {
                    Err(e2) => e == e2,
                    Ok(v) => e == Error::Conversion && !(v < 0xD800 || (0xE000 <= v && v
                        <= 0x10FFFF)),
                },
            },
    {
        let v = self.view.get_required(idx)?.into_u32()?;
        match char_from_u32(v) {
            Some(c) => Ok(c),
            None => Err(Error::Conversion),
        }
    }
}

/// Relies on `char::from_u32`: it answers exactly the Unicode scalar
/// values — the numbers below the surrogate range, or between it and the
/// largest code point — and the character converts back to the same
/// number.
#[verifier::external_body]
fn char_from_u32(v: u32) -> (r: Option<char>)
    ensures
        r is Some <==> (v < 0xD800 || (0xE000 <= v && v <= 0x10FFFF)),
        match r {
            Some(c) => c as u32 == v,
            None => true,
        },
{
    char::from_u32(v)
}

} // verus!
