use vstd::prelude::*;
use crate::bits::spec_bit;
use crate::offsets::Offset;

verus! {

/// The granularity of a time or timestamp column's raw integers.
#[derive(Debug, Clone, Copy, PartialEq, Eq, Structural)]
pub enum TimeUnit {
    Second,
    Millisecond,
    Microsecond,
    Nanosecond,
}

/// A fixed-width column: one value per row plus an optional packed
/// validity bitmap (LSB-first, 1 = valid).
#[derive(Debug, Clone, PartialEq)]
pub struct PrimitiveArray<T> {
    pub values: Vec<T>,
    pub validity: Option<Vec<u8>>,
}

impl<T> PrimitiveArray<T> {
    /// The validity bitmap, when present, has one bit per row.
    pub open spec fn wf(self) -> bool {
        match self.validity {
            Some(v) => self.values@.len() <= v@.len() * 8,
            None => true,
        }
    }

    /// Whether row `i` is non-null.
    pub open spec fn spec_is_valid(self, i: int) -> bool {
        match self.validity {
            Some(v) => spec_bit(v@, i),
            None => true,
        }
    }
}

impl<T: Copy> PrimitiveArray<T> {
    /// The read-side window over this column.
    pub fn into_view(self) -> (r: crate::views::PrimitiveView<T>)
        requires
            self.wf(),
        ensures
            r.wf(),
            r.values == self.values,
            r.spec_len() == self.values@.len(),
            forall|i: int|
                0 <= i < self.values@.len() ==> r.spec_is_valid(i) == self.spec_is_valid(i),
    {
        let n = self.values.len();
        let validity = match self.validity {
            Some(v) => Some(crate::bits::BitsWithOffset { data: v, offset: 0 }),
            None => None,
        };
        crate::views::PrimitiveView { values: self.values, validity }
    }
}

/// A boolean column: values packed LSB-first, `len` rows.
#[derive(Debug, Clone, PartialEq)]
pub struct BooleanArray {
    pub len: usize,
    pub values: Vec<u8>,
    pub validity: Option<Vec<u8>>,
}

impl BooleanArray {
    pub open spec fn wf(self) -> bool {
        &&& self.len <= self.values@.len() * 8
        &&& match self.validity {
            Some(v) => self.len <= v@.len() * 8,
            None => true,
        }
    }

    /// Whether row `i` is non-null.
    pub open spec fn spec_is_valid(self, i: int) -> bool {
        match self.validity {
            Some(v) => spec_bit(v@, i),
            None => true,
        }
    }

    /// The value of row `i`.
    pub open spec fn spec_value(self, i: int) -> bool {
        spec_bit(self.values@, i)
    }

    /// The read-side window over this column.
    pub fn into_view(self) -> (r: crate::views::BoolView)
        requires
            self.wf(),
        ensures
            r.wf(),
            r.spec_len() == self.len,
            forall|i: int| 0 <= i < self.len ==> r.spec_is_valid(i) == self.spec_is_valid(i),
            forall|i: int| 0 <= i < self.len ==> r.spec_value(i) == self.spec_value(i),
    {
        let validity = match self.validity {
            Some(v) => Some(crate::bits::BitsWithOffset { data: v, offset: 0 }),
            None => None,
        };
        crate::views::BoolView {
            len: self.len,
            values: crate::bits::BitsWithOffset { data: self.values, offset: 0 },
            validity,
        }
    }
}

/// A UTF-8 string column: concatenated bytes plus an offsets buffer with
/// one more entry than there are rows.
#[derive(Debug, Clone, PartialEq)]
pub struct Utf8Array<O: Offset> {
    pub offsets: Vec<O>,
    pub data: Vec<u8>,
    pub validity: Option<Vec<u8>>,
}

impl<O: Offset> Utf8Array<O> {
    pub open spec fn offset_ints(self) -> Seq<int> {
        self.offsets@.map(|_i: int, o: O| o.as_int())
    }

    pub open spec fn spec_rows(self) -> int {
        self.offsets@.len() - 1
    }

    pub open spec fn wf(self) -> bool {
        &&& self.offsets@.len() >= 1
        &&& self.offset_ints()[0] == 0
        &&& forall|i: int, j: int|
            0 <= i <= j < self.offset_ints().len() ==> self.offset_ints()[i]
                <= self.offset_ints()[j]
        &&& forall|i: int|
            0 <= i < self.offset_ints().len() ==> 0 <= #[trigger] self.offset_ints()[i]
                <= O::max_spec()
        &&& self.offset_ints()[self.offset_ints().len() - 1] == self.data@.len()
        &&& match self.validity {
            Some(v) => self.spec_rows() <= v@.len() * 8,
            None => true,
        }
    }

    /// The bytes of row `i`.
    pub open spec fn spec_row_data(self, i: int) -> Seq<u8> {
        self.data@.subrange(self.offset_ints()[i], self.offset_ints()[i + 1])
    }

    /// Whether row `i` is non-null.
    pub open spec fn spec_is_valid(self, i: int) -> bool {
        match self.validity {
            Some(v) => spec_bit(v@, i),
            None => true,
        }
    }

    /// The exact outcome of asking whether row `idx` is non-null.
    pub open spec fn spec_is_some(self, idx: int) -> Result<bool, crate::Error> {
        if idx >= self.spec_rows() {
            Err(crate::Error::OutOfRange)
        } else {
            Ok(self.spec_is_valid(idx))
        }
    }

    /// The exact outcome of reading the required (non-null) bytes of row
    /// `idx`.
    pub open spec fn spec_get_bytes(self, idx: int) -> Result<Seq<u8>, crate::Error> {
        if idx >= self.spec_rows() {
            Err(crate::Error::OutOfRange)
        } else if !self.spec_is_valid(idx) {
            Err(crate::Error::TypeMismatch)
        } else {
            Ok(self.spec_row_data(idx))
        }
    }

    pub fn len(&self) -> (r: usize)
        requires
            self.wf(),
        ensures
            r == self.spec_rows(),
    {
        self.offsets.len() - 1
    }

    pub fn is_some(&self, idx: usize) -> (r: Result<bool, crate::Error>)
        requires
            self.wf(),
        ensures
            r == self.spec_is_some(idx as int),
    {
        if idx >= self.offsets.len() - 1 {
            return Err(crate::Error::OutOfRange);
        }
        match &self.validity {
            Some(v) => {
                let b = v[idx / 8];
                let shift = (idx % 8) as u8;
                Ok((b >> shift) & 1u8 == 1u8)
            },
            None => Ok(true),
        }
    }

    /// Reads the bytes of one non-null row.
    pub fn get_bytes(&self, idx: usize) -> (r: Result<Vec<u8>, crate::Error>)
        requires
            self.wf(),
        ensures
            match r {
                Ok(v) => self.spec_get_bytes(idx as int) == Ok::<Seq<u8>, crate::Error>(v@),
                Err(e) => self.spec_get_bytes(idx as int) == Err::<Seq<u8>, crate::Error>(e),
            },
    {
        let n_rows = self.offsets.len() - 1;
        let dlen = self.data.len();
        if idx >= n_rows {
            return Err(crate::Error::OutOfRange);
        }
        let valid = match &self.validity {
            Some(v) => {
                let b = v[idx / 8];
                let shift = (idx % 8) as u8;
                (b >> shift) & 1u8 == 1u8
            },
            None => true,
        };
        if !valid {
            return Err(crate::Error::TypeMismatch);
        }
        proof {
            let n = self.offset_ints().len() - 1;
            assert(self.offset_ints()[idx as int] <= self.offset_ints()[n]);
            assert(self.offset_ints()[idx as int + 1] <= self.offset_ints()[n]);
            assert(self.offsets@[idx as int].as_int() == self.offset_ints()[idx as int]);
            assert(self.offsets@[idx as int + 1].as_int() == self.offset_ints()[idx as int + 1]);
        }
        let start = self.offsets[idx].to_usize();
        let end = self.offsets[idx + 1].to_usize();
        let mut out: Vec<u8> = Vec::new();
        let mut k: usize = start;
        proof {
            assert(start <= end <= self.data@.len());
        }
        while k < end
            invariant
                start <= k <= end,
                end <= self.data@.len(),
                out@ == self.data@.subrange(start as int, k as int),
            decreases end - k,
        {
            out.push(self.data[k]);
            proof {
                assert(out@ =~= self.data@.subrange(start as int, k + 1));
            }
            k += 1;
        }
        proof {
            assert(out@ =~= self.spec_row_data(idx as int));
        }
        Ok(out)
    }
}

/// The key column of a dictionary-encoded string column: one of the eight
/// supported integer widths.
#[derive(Debug, Clone, PartialEq)]
pub enum DictionaryKeys {
    I8(PrimitiveArray<i8>),
    I16(PrimitiveArray<i16>),
    I32(PrimitiveArray<i32>),
    I64(PrimitiveArray<i64>),
    U8(PrimitiveArray<u8>),
    U16(PrimitiveArray<u16>),
    U32(PrimitiveArray<u32>),
    U64(PrimitiveArray<u64>),
}

/// The value column of a dictionary-encoded string column: a string array
/// with one of the two supported offset widths.
#[derive(Debug, Clone, PartialEq)]
pub enum DictionaryValues {
    Utf8(Utf8Array<i32>),
    LargeUtf8(Utf8Array<i64>),
}

/// A dictionary-encoded string column: integer keys into a deduplicated
/// value column.
#[derive(Debug, Clone, PartialEq)]
pub struct DictionaryArray {
    pub keys: DictionaryKeys,
    pub values: DictionaryValues,
}

/// The neutral in-memory array produced by the builders: one variant per
/// physical layout this library builds.
#[derive(Debug, Clone, PartialEq)]
pub enum Array {
    Null(usize),
    Boolean(BooleanArray),
    Int8(PrimitiveArray<i8>),
    Int16(PrimitiveArray<i16>),
    Int32(PrimitiveArray<i32>),
    Int64(PrimitiveArray<i64>),
    UInt8(PrimitiveArray<u8>),
    UInt16(PrimitiveArray<u16>),
    UInt32(PrimitiveArray<u32>),
    UInt64(PrimitiveArray<u64>),
    Date32(PrimitiveArray<i32>),
    Date64(PrimitiveArray<i64>),
    Time32(TimeUnit, PrimitiveArray<i32>),
    Time64(TimeUnit, PrimitiveArray<i64>),
    Utf8(Utf8Array<i32>),
    LargeUtf8(Utf8Array<i64>),
    Dictionary(DictionaryArray),
}

/// The number of rows an array holds.
pub open spec fn spec_array_len(a: Array) -> int {
    match a {
        Array::Null(n) => n as int,
        Array::Boolean(x) => x.len as int,
        Array::Int8(x) => x.values@.len() as int,
        Array::Int16(x) => x.values@.len() as int,
        Array::Int32(x) => x.values@.len() as int,
        Array::Int64(x) => x.values@.len() as int,
        Array::UInt8(x) => x.values@.len() as int,
        Array::UInt16(x) => x.values@.len() as int,
        Array::UInt32(x) => x.values@.len() as int,
        Array::UInt64(x) => x.values@.len() as int,
        Array::Date32(x) => x.values@.len() as int,
        Array::Date64(x) => x.values@.len() as int,
        Array::Time32(_, x) => x.values@.len() as int,
        Array::Time64(_, x) => x.values@.len() as int,
        Array::Utf8(x) => x.spec_rows(),
        Array::LargeUtf8(x) => x.spec_rows(),
        Array::Dictionary(d) => match d.keys {
            DictionaryKeys::I8(x) => x.values@.len() as int,
            DictionaryKeys::I16(x) => x.values@.len() as int,
            DictionaryKeys::I32(x) => x.values@.len() as int,
            DictionaryKeys::I64(x) => x.values@.len() as int,
            DictionaryKeys::U8(x) => x.values@.len() as int,
            DictionaryKeys::U16(x) => x.values@.len() as int,
            DictionaryKeys::U32(x) => x.values@.len() as int,
            DictionaryKeys::U64(x) => x.values@.len() as int,
        },
    }
}

} // verus!
