use vstd::prelude::*;
use crate::Error;
use crate::array::{TimeUnit, Utf8Array};
use crate::bits::{spec_bit, BitsWithOffset};
use crate::offsets::Offset;

verus! {

/// A read-side window over a committed fixed-width column: the raw values
/// and an optional validity bitmap (given as a byte buffer plus a bit
/// offset, as the columnar format stores it).
#[derive(Debug, Clone, PartialEq)]
pub struct PrimitiveView<T> {
    pub values: Vec<T>,
    pub validity: Option<BitsWithOffset>,
}

impl<T: Copy> PrimitiveView<T> {
    pub open spec fn wf(self) -> bool {
        match self.validity {
            Some(b) => {
                &&& b.offset + self.values@.len() <= b.data@.len() * 8
                &&& b.offset + self.values@.len() <= usize::MAX
            },
            None => true,
        }
    }

    pub open spec fn spec_len(self) -> int {
        self.values@.len() as int
    }

    pub open spec fn spec_is_valid(self, i: int) -> bool {
        match self.validity {
            Some(b) => spec_bit(b.data@, b.offset + i),
            None => true,
        }
    }

    pub open spec fn spec_value(self, i: int) -> T {
        self.values@[i]
    }

    /// The exact outcome of asking whether row `idx` is non-null.
    pub open spec fn spec_is_some(self, idx: int) -> Result<bool, Error> {
        if idx >= self.spec_len() {
            Err(Error::OutOfRange)
        } else {
            Ok(self.spec_is_valid(idx))
        }
    }

    /// The exact outcome of reading the required (non-null) value of row
    /// `idx`: a row outside the column is out of range, a null row has no
    /// value to hand out.
    pub open spec fn spec_get_required(self, idx: int) -> Result<T, Error> {
        if idx >= self.spec_len() {
            Err(Error::OutOfRange)
        } else if !self.spec_is_valid(idx) {
            Err(Error::TypeMismatch)
        } else {
            Ok(self.spec_value(idx))
        }
    }

    pub fn len(&self) -> (r: usize)
        ensures
            r == self.spec_len(),
    {
        self.values.len()
    }

    pub fn is_some(&self, idx: usize) -> (r: Result<bool, Error>)
        requires
            self.wf(),
        ensures
            r == self.spec_is_some(idx as int),
    {
        if idx >= self.values.len() {
            return Err(Error::OutOfRange);
        }
        match &self.validity {
            Some(b) => Ok(b.is_set(idx)),
            None => Ok(true),
        }
    }

    pub fn get_required(&self, idx: usize) -> (r: Result<T, Error>)
        requires
            self.wf(),
        ensures
            r == self.spec_get_required(idx as int),
    {
        if idx >= self.values.len() {
            return Err(Error::OutOfRange);
        }
        let valid = match &self.validity {
            Some(b) => b.is_set(idx),
            None => true,
        };
        if valid {
            Ok(self.values[idx])
        } else {
            Err(Error::TypeMismatch)
        }
    }
}

/// The key column of a dictionary view.
#[derive(Debug, Clone, PartialEq)]
pub enum DictionaryKeysView {
    I8(PrimitiveView<i8>),
    I16(PrimitiveView<i16>),
    I32(PrimitiveView<i32>),
    I64(PrimitiveView<i64>),
    U8(PrimitiveView<u8>),
    U16(PrimitiveView<u16>),
    U32(PrimitiveView<u32>),
    U64(PrimitiveView<u64>),
}

/// The value column of a dictionary view.
#[derive(Debug, Clone, PartialEq)]
pub enum DictionaryValuesView {
    Utf8(Utf8Array<i32>),
    LargeUtf8(Utf8Array<i64>),
}

/// A read-side window over a committed array, one variant per physical
/// layout this library reads.
#[derive(Debug, Clone, PartialEq)]
pub enum ArrayView {
    Null(usize),
    Boolean(BoolView),
    Int8(PrimitiveView<i8>),
    Int16(PrimitiveView<i16>),
    Int32(PrimitiveView<i32>),
    Int64(PrimitiveView<i64>),
    UInt8(PrimitiveView<u8>),
    UInt16(PrimitiveView<u16>),
    UInt32(PrimitiveView<u32>),
    UInt64(PrimitiveView<u64>),
    Date32(PrimitiveView<i32>),
    Date64(PrimitiveView<i64>),
    Time32(TimeUnit, PrimitiveView<i32>),
    Time64(TimeUnit, PrimitiveView<i64>),
    Utf8(Utf8Array<i32>),
    LargeUtf8(Utf8Array<i64>),
    Dictionary(DictionaryKeysView, DictionaryValuesView),
}

/// A read-side window over a committed boolean column: values packed
/// LSB-first, `len` rows.
#[derive(Debug, Clone, PartialEq)]
pub struct BoolView {
    pub len: usize,
    pub values: BitsWithOffset,
    pub validity: Option<BitsWithOffset>,
}

impl BoolView {
    pub open spec fn wf(self) -> bool {
        &&& self.values.offset + self.len <= self.values.data@.len() * 8
        &&& self.values.offset + self.len <= usize::MAX
        &&& match self.validity {
            Some(b) => {
                &&& b.offset + self.len <= b.data@.len() * 8
                &&& b.offset + self.len <= usize::MAX
            },
            None => true,
        }
    }

    pub open spec fn spec_len(self) -> int {
        self.len as int
    }

    pub open spec fn spec_is_valid(self, i: int) -> bool {
        match self.validity {
            Some(b) => spec_bit(b.data@, b.offset + i),
            None => true,
        }
    }

    pub open spec fn spec_value(self, i: int) -> bool {
        spec_bit(self.values.data@, self.values.offset + i)
    }

    pub open spec fn spec_is_some(self, idx: int) -> Result<bool, Error> {
        if idx >= self.spec_len() {
            Err(Error::OutOfRange)
        } else {
            Ok(self.spec_is_valid(idx))
        }
    }

    pub open spec fn spec_get_required(self, idx: int) -> Result<bool, Error> {
        if idx >= self.spec_len() {
            Err(Error::OutOfRange)
        } else if !self.spec_is_valid(idx) {
            Err(Error::TypeMismatch)
        } else {
            Ok(self.spec_value(idx))
        }
    }

    pub fn is_some(&self, idx: usize) -> (r: Result<bool, Error>)
        requires
            self.wf(),
        ensures
            r == self.spec_is_some(idx as int),
    {
        if idx >= self.len {
            return Err(Error::OutOfRange);
        }
        match &self.validity {
            Some(b) => Ok(b.is_set(idx)),
            None => Ok(true),
        }
    }

    pub fn get_required(&self, idx: usize) -> (r: Result<bool, Error>)
        requires
            self.wf(),
        ensures
            r == self.spec_get_required(idx as int),
    {
        if idx >= self.len {
            return Err(Error::OutOfRange);
        }
        let valid = match &self.validity {
            Some(b) => b.is_set(idx),
            None => true,
        };
        if valid {
            Ok(self.values.is_set(idx))
        } else {
            Err(Error::TypeMismatch)
        }
    }
}

} // verus!
