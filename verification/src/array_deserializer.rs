use vstd::prelude::*;
use crate::Error;
use crate::bool_deserializer::BoolDeserializer;
use crate::date_deserializer::{spec_date_read, DateDeserializer};
use crate::dictionary_deserializer::{spec_dict_bytes, spec_dict_str, DictionaryDeserializer};
use crate::integer_deserializer::{spec_narrow, IntegerDeserializer};
use crate::string_deserializer::{spec_read_str, StringDeserializer};
use crate::time_deserializer::{spec_time_read, TimeDeserializer};
use crate::views::{ArrayView, DictionaryKeysView, DictionaryValuesView};

verus! {

/// The random-access reader over a committed column: one variant per
/// physical layout, each holding the matching typed reader. Requests
/// that do not fit the column's physical kind fail with a type-mismatch
/// error; integer reads are range-checked and never truncate.
#[derive(Debug, Clone, PartialEq)]
pub enum ArrayDeserializer {
    Null(String, usize),
    Bool(BoolDeserializer),
    I8(IntegerDeserializer<i8>),
    I16(IntegerDeserializer<i16>),
    I32(IntegerDeserializer<i32>),
    I64(IntegerDeserializer<i64>),
    U8(IntegerDeserializer<u8>),
    U16(IntegerDeserializer<u16>),
    U32(IntegerDeserializer<u32>),
    U64(IntegerDeserializer<u64>),
    Date32(DateDeserializer<i32>),
    Date64(DateDeserializer<i64>),
    Time32(TimeDeserializer<i32>),
    Time64(TimeDeserializer<i64>),
    Utf8(StringDeserializer<i32>),
    LargeUtf8(StringDeserializer<i64>),
    DictionaryI8I32(DictionaryDeserializer<i8, i32>),
    DictionaryI8I64(DictionaryDeserializer<i8, i64>),
    DictionaryI16I32(DictionaryDeserializer<i16, i32>),
    DictionaryI16I64(DictionaryDeserializer<i16, i64>),
    DictionaryI32I32(DictionaryDeserializer<i32, i32>),
    DictionaryI32I64(DictionaryDeserializer<i32, i64>),
    DictionaryI64I32(DictionaryDeserializer<i64, i32>),
    DictionaryI64I64(DictionaryDeserializer<i64, i64>),
    DictionaryU8I32(DictionaryDeserializer<u8, i32>),
    DictionaryU8I64(DictionaryDeserializer<u8, i64>),
    DictionaryU16I32(DictionaryDeserializer<u16, i32>),
    DictionaryU16I64(DictionaryDeserializer<u16, i64>),
    DictionaryU32I32(DictionaryDeserializer<u32, i32>),
    DictionaryU32I64(DictionaryDeserializer<u32, i64>),
    DictionaryU64I32(DictionaryDeserializer<u64, i32>),
    DictionaryU64I64(DictionaryDeserializer<u64, i64>),
}

/// Well-formedness of a view, variant by variant.
pub open spec fn view_wf(view: ArrayView) -> bool {
    match view {
        ArrayView::Null(_) => true,
        ArrayView::Boolean(v) => v.wf(),
        ArrayView::Int8(v) => v.wf(),
        ArrayView::Int16(v) => v.wf(),
        ArrayView::Int32(v) => v.wf(),
        ArrayView::Int64(v) => v.wf(),
        ArrayView::UInt8(v) => v.wf(),
        ArrayView::UInt16(v) => v.wf(),
        ArrayView::UInt32(v) => v.wf(),
        ArrayView::UInt64(v) => v.wf(),
        ArrayView::Date32(v) => v.wf(),
        ArrayView::Date64(v) => v.wf(),
        ArrayView::Time32(_, v) => v.wf(),
        ArrayView::Time64(_, v) => v.wf(),
        ArrayView::Utf8(v) => v.wf(),
        ArrayView::LargeUtf8(v) => v.wf(),
        ArrayView::Dictionary(k, v) => dict_keys_wf(k) && dict_values_wf(v),
    }
}

pub open spec fn dict_keys_wf(k: DictionaryKeysView) -> bool {
    match k {
        DictionaryKeysView::I8(v) => v.wf(),
        DictionaryKeysView::I16(v) => v.wf(),
        DictionaryKeysView::I32(v) => v.wf(),
        DictionaryKeysView::I64(v) => v.wf(),
        DictionaryKeysView::U8(v) => v.wf(),
        DictionaryKeysView::U16(v) => v.wf(),
        DictionaryKeysView::U32(v) => v.wf(),
        DictionaryKeysView::U64(v) => v.wf(),
    }
}

pub open spec fn dict_values_wf(v: DictionaryValuesView) -> bool {
    match v {
        DictionaryValuesView::Utf8(a) => a.wf(),
        DictionaryValuesView::LargeUtf8(a) => a.wf(),
    }
}

impl ArrayDeserializer {
    pub open spec fn wf(self) -> bool {
        match self {
            ArrayDeserializer::Null(_, _) => true,
            ArrayDeserializer::Bool(d) => d.wf(),
            ArrayDeserializer::I8(d) => d.wf(),
            ArrayDeserializer::I16(d) => d.wf(),
            ArrayDeserializer::I32(d) => d.wf(),
            ArrayDeserializer::I64(d) => d.wf(),
            ArrayDeserializer::U8(d) => d.wf(),
            ArrayDeserializer::U16(d) => d.wf(),
            ArrayDeserializer::U32(d) => d.wf(),
            ArrayDeserializer::U64(d) => d.wf(),
            ArrayDeserializer::Date32(d) => d.wf(),
            ArrayDeserializer::Date64(d) => d.wf(),
            ArrayDeserializer::Time32(d) => d.wf(),
            ArrayDeserializer::Time64(d) => d.wf(),
            ArrayDeserializer::Utf8(d) => d.wf(),
            ArrayDeserializer::LargeUtf8(d) => d.wf(),
            ArrayDeserializer::DictionaryI8I32(d) => d.wf(),
            ArrayDeserializer::DictionaryI8I64(d) => d.wf(),
            ArrayDeserializer::DictionaryI16I32(d) => d.wf(),
            ArrayDeserializer::DictionaryI16I64(d) => d.wf(),
            ArrayDeserializer::DictionaryI32I32(d) => d.wf(),
            ArrayDeserializer::DictionaryI32I64(d) => d.wf(),
            ArrayDeserializer::DictionaryI64I32(d) => d.wf(),
            ArrayDeserializer::DictionaryI64I64(d) => d.wf(),
            ArrayDeserializer::DictionaryU8I32(d) => d.wf(),
            ArrayDeserializer::DictionaryU8I64(d) => d.wf(),
            ArrayDeserializer::DictionaryU16I32(d) => d.wf(),
            ArrayDeserializer::DictionaryU16I64(d) => d.wf(),
            ArrayDeserializer::DictionaryU32I32(d) => d.wf(),
            ArrayDeserializer::DictionaryU32I64(d) => d.wf(),
            ArrayDeserializer::DictionaryU64I32(d) => d.wf(),
            ArrayDeserializer::DictionaryU64I64(d) => d.wf(),
        }
    }

    /// The exact outcome of asking whether row `idx` is non-null (every
    /// row of a null column is null).
    pub open spec fn spec_is_some(self, idx: int) -> Result<bool, Error> {
        match self {
            ArrayDeserializer::Null(_, len) => if idx >= len { Err(Error::OutOfRange) } else { Ok(false) },
            ArrayDeserializer::Bool(d) => d.view.spec_is_some(idx),
            ArrayDeserializer::I8(d) => d.view.spec_is_some(idx),
            ArrayDeserializer::I16(d) => d.view.spec_is_some(idx),
            ArrayDeserializer::I32(d) => d.view.spec_is_some(idx),
            ArrayDeserializer::I64(d) => d.view.spec_is_some(idx),
            ArrayDeserializer::U8(d) => d.view.spec_is_some(idx),
            ArrayDeserializer::U16(d) => d.view.spec_is_some(idx),
            ArrayDeserializer::U32(d) => d.view.spec_is_some(idx),
            ArrayDeserializer::U64(d) => d.view.spec_is_some(idx),
            ArrayDeserializer::Date32(d) => d.array.spec_is_some(idx),
            ArrayDeserializer::Date64(d) => d.array.spec_is_some(idx),
            ArrayDeserializer::Time32(d) => d.array.spec_is_some(idx),
            ArrayDeserializer::Time64(d) => d.array.spec_is_some(idx),
            ArrayDeserializer::Utf8(d) => d.view.spec_is_some(idx),
            ArrayDeserializer::LargeUtf8(d) => d.view.spec_is_some(idx),
            ArrayDeserializer::DictionaryI8I32(d) => d.keys.spec_is_some(idx),
            ArrayDeserializer::DictionaryI8I64(d) => d.keys.spec_is_some(idx),
            ArrayDeserializer::DictionaryI16I32(d) => d.keys.spec_is_some(idx),
            ArrayDeserializer::DictionaryI16I64(d) => d.keys.spec_is_some(idx),
            ArrayDeserializer::DictionaryI32I32(d) => d.keys.spec_is_some(idx),
            ArrayDeserializer::DictionaryI32I64(d) => d.keys.spec_is_some(idx),
            ArrayDeserializer::DictionaryI64I32(d) => d.keys.spec_is_some(idx),
            ArrayDeserializer::DictionaryI64I64(d) => d.keys.spec_is_some(idx),
            ArrayDeserializer::DictionaryU8I32(d) => d.keys.spec_is_some(idx),
            ArrayDeserializer::DictionaryU8I64(d) => d.keys.spec_is_some(idx),
            ArrayDeserializer::DictionaryU16I32(d) => d.keys.spec_is_some(idx),
            ArrayDeserializer::DictionaryU16I64(d) => d.keys.spec_is_some(idx),
            ArrayDeserializer::DictionaryU32I32(d) => d.keys.spec_is_some(idx),
            ArrayDeserializer::DictionaryU32I64(d) => d.keys.spec_is_some(idx),
            ArrayDeserializer::DictionaryU64I32(d) => d.keys.spec_is_some(idx),
            ArrayDeserializer::DictionaryU64I64(d) => d.keys.spec_is_some(idx),
        }
    }

    /// The exact outcome of a range-checked integer read of widths that
    /// only plain integer columns answer.
    pub open spec fn spec_read_int(self, idx: int, lo: int, hi: int) -> Result<int, Error> {
        match self {
            ArrayDeserializer::Null(_, len) => Err(Error::TypeMismatch),
            ArrayDeserializer::Bool(d) => Err(Error::TypeMismatch),
            ArrayDeserializer::I8(d) => spec_narrow(d.view, idx, lo, hi),
            ArrayDeserializer::I16(d) => spec_narrow(d.view, idx, lo, hi),
            ArrayDeserializer::I32(d) => spec_narrow(d.view, idx, lo, hi),
            ArrayDeserializer::I64(d) => spec_narrow(d.view, idx, lo, hi),
            ArrayDeserializer::U8(d) => spec_narrow(d.view, idx, lo, hi),
            ArrayDeserializer::U16(d) => spec_narrow(d.view, idx, lo, hi),
            ArrayDeserializer::U32(d) => spec_narrow(d.view, idx, lo, hi),
            ArrayDeserializer::U64(d) => spec_narrow(d.view, idx, lo, hi),
            ArrayDeserializer::Date32(d) => Err(Error::TypeMismatch),
            ArrayDeserializer::Date64(d) => Err(Error::TypeMismatch),
            ArrayDeserializer::Time32(d) => Err(Error::TypeMismatch),
            ArrayDeserializer::Time64(d) => Err(Error::TypeMismatch),
            ArrayDeserializer::Utf8(d) => Err(Error::TypeMismatch),
            ArrayDeserializer::LargeUtf8(d) => Err(Error::TypeMismatch),
            ArrayDeserializer::DictionaryI8I32(d) => Err(Error::TypeMismatch),
            ArrayDeserializer::DictionaryI8I64(d) => Err(Error::TypeMismatch),
            ArrayDeserializer::DictionaryI16I32(d) => Err(Error::TypeMismatch),
            ArrayDeserializer::DictionaryI16I64(d) => Err(Error::TypeMismatch),
            ArrayDeserializer::DictionaryI32I32(d) => Err(Error::TypeMismatch),
            ArrayDeserializer::DictionaryI32I64(d) => Err(Error::TypeMismatch),
            ArrayDeserializer::DictionaryI64I32(d) => Err(Error::TypeMismatch),
            ArrayDeserializer::DictionaryI64I64(d) => Err(Error::TypeMismatch),
            ArrayDeserializer::DictionaryU8I32(d) => Err(Error::TypeMismatch),
            ArrayDeserializer::DictionaryU8I64(d) => Err(Error::TypeMismatch),
            ArrayDeserializer::DictionaryU16I32(d) => Err(Error::TypeMismatch),
            ArrayDeserializer::DictionaryU16I64(d) => Err(Error::TypeMismatch),
            ArrayDeserializer::DictionaryU32I32(d) => Err(Error::TypeMismatch),
            ArrayDeserializer::DictionaryU32I64(d) => Err(Error::TypeMismatch),
            ArrayDeserializer::DictionaryU64I32(d) => Err(Error::TypeMismatch),
            ArrayDeserializer::DictionaryU64I64(d) => Err(Error::TypeMismatch),
        }
    }

    /// The exact outcome of a range-checked 32- or 64-bit integer read,
    /// which temporal columns also answer with their raw stored value.
    pub open spec fn spec_read_int_wide(self, idx: int, lo: int, hi: int) -> Result<int, Error> {
        match self {
            ArrayDeserializer::Null(_, len) => Err(Error::TypeMismatch),
            ArrayDeserializer::Bool(d) => Err(Error::TypeMismatch),
            ArrayDeserializer::I8(d) => spec_narrow(d.view, idx, lo, hi),
            ArrayDeserializer::I16(d) => spec_narrow(d.view, idx, lo, hi),
            ArrayDeserializer::I32(d) => spec_narrow(d.view, idx, lo, hi),
            ArrayDeserializer::I64(d) => spec_narrow(d.view, idx, lo, hi),
            ArrayDeserializer::U8(d) => spec_narrow(d.view, idx, lo, hi),
            ArrayDeserializer::U16(d) => spec_narrow(d.view, idx, lo, hi),
            ArrayDeserializer::U32(d) => spec_narrow(d.view, idx, lo, hi),
            ArrayDeserializer::U64(d) => spec_narrow(d.view, idx, lo, hi),
            ArrayDeserializer::Date32(d) => spec_narrow(d.array, idx, lo, hi),
            ArrayDeserializer::Date64(d) => spec_narrow(d.array, idx, lo, hi),
            ArrayDeserializer::Time32(d) => spec_narrow(d.array, idx, lo, hi),
            ArrayDeserializer::Time64(d) => spec_narrow(d.array, idx, lo, hi),
            ArrayDeserializer::Utf8(d) => Err(Error::TypeMismatch),
            ArrayDeserializer::LargeUtf8(d) => Err(Error::TypeMismatch),
            ArrayDeserializer::DictionaryI8I32(d) => Err(Error::TypeMismatch),
            ArrayDeserializer::DictionaryI8I64(d) => Err(Error::TypeMismatch),
            ArrayDeserializer::DictionaryI16I32(d) => Err(Error::TypeMismatch),
            ArrayDeserializer::DictionaryI16I64(d) => Err(Error::TypeMismatch),
            ArrayDeserializer::DictionaryI32I32(d) => Err(Error::TypeMismatch),
            ArrayDeserializer::DictionaryI32I64(d) => Err(Error::TypeMismatch),
            ArrayDeserializer::DictionaryI64I32(d) => Err(Error::TypeMismatch),
            ArrayDeserializer::DictionaryI64I64(d) => Err(Error::TypeMismatch),
            ArrayDeserializer::DictionaryU8I32(d) => Err(Error::TypeMismatch),
            ArrayDeserializer::DictionaryU8I64(d) => Err(Error::TypeMismatch),
            ArrayDeserializer::DictionaryU16I32(d) => Err(Error::TypeMismatch),
            ArrayDeserializer::DictionaryU16I64(d) => Err(Error::TypeMismatch),
            ArrayDeserializer::DictionaryU32I32(d) => Err(Error::TypeMismatch),
            ArrayDeserializer::DictionaryU32I64(d) => Err(Error::TypeMismatch),
            ArrayDeserializer::DictionaryU64I32(d) => Err(Error::TypeMismatch),
            ArrayDeserializer::DictionaryU64I64(d) => Err(Error::TypeMismatch),
        }
    }

    /// The exact outcome of a boolean read: a boolean column's value, or
    /// an integer column's value checked to be exactly 0 or 1.
    pub open spec fn spec_read_bool(self, idx: int) -> Result<bool, Error> {
        match self {
            ArrayDeserializer::Null(_, len) => Err(Error::TypeMismatch),
            ArrayDeserializer::Bool(d) => d.view.spec_get_required(idx),
            ArrayDeserializer::I8(d) => match spec_narrow(d.view, idx, 0, 1) { Err(e) => Err(e), Ok(v) => Ok(v == 1) },
            ArrayDeserializer::I16(d) => match spec_narrow(d.view, idx, 0, 1) { Err(e) => Err(e), Ok(v) => Ok(v == 1) },
            ArrayDeserializer::I32(d) => match spec_narrow(d.view, idx, 0, 1) { Err(e) => Err(e), Ok(v) => Ok(v == 1) },
            ArrayDeserializer::I64(d) => match spec_narrow(d.view, idx, 0, 1) { Err(e) => Err(e), Ok(v) => Ok(v == 1) },
            ArrayDeserializer::U8(d) => match spec_narrow(d.view, idx, 0, 1) { Err(e) => Err(e), Ok(v) => Ok(v == 1) },
            ArrayDeserializer::U16(d) => match spec_narrow(d.view, idx, 0, 1) { Err(e) => Err(e), Ok(v) => Ok(v == 1) },
            ArrayDeserializer::U32(d) => match spec_narrow(d.view, idx, 0, 1) { Err(e) => Err(e), Ok(v) => Ok(v == 1) },
            ArrayDeserializer::U64(d) => match spec_narrow(d.view, idx, 0, 1) { Err(e) => Err(e), Ok(v) => Ok(v == 1) },
            ArrayDeserializer::Date32(d) => Err(Error::TypeMismatch),
            ArrayDeserializer::Date64(d) => Err(Error::TypeMismatch),
            ArrayDeserializer::Time32(d) => Err(Error::TypeMismatch),
            ArrayDeserializer::Time64(d) => Err(Error::TypeMismatch),
            ArrayDeserializer::Utf8(d) => Err(Error::TypeMismatch),
            ArrayDeserializer::LargeUtf8(d) => Err(Error::TypeMismatch),
            ArrayDeserializer::DictionaryI8I32(d) => Err(Error::TypeMismatch),
            ArrayDeserializer::DictionaryI8I64(d) => Err(Error::TypeMismatch),
            ArrayDeserializer::DictionaryI16I32(d) => Err(Error::TypeMismatch),
            ArrayDeserializer::DictionaryI16I64(d) => Err(Error::TypeMismatch),
            ArrayDeserializer::DictionaryI32I32(d) => Err(Error::TypeMismatch),
            ArrayDeserializer::DictionaryI32I64(d) => Err(Error::TypeMismatch),
            ArrayDeserializer::DictionaryI64I32(d) => Err(Error::TypeMismatch),
            ArrayDeserializer::DictionaryI64I64(d) => Err(Error::TypeMismatch),
            ArrayDeserializer::DictionaryU8I32(d) => Err(Error::TypeMismatch),
            ArrayDeserializer::DictionaryU8I64(d) => Err(Error::TypeMismatch),
            ArrayDeserializer::DictionaryU16I32(d) => Err(Error::TypeMismatch),
            ArrayDeserializer::DictionaryU16I64(d) => Err(Error::TypeMismatch),
            ArrayDeserializer::DictionaryU32I32(d) => Err(Error::TypeMismatch),
            ArrayDeserializer::DictionaryU32I64(d) => Err(Error::TypeMismatch),
            ArrayDeserializer::DictionaryU64I32(d) => Err(Error::TypeMismatch),
            ArrayDeserializer::DictionaryU64I64(d) => Err(Error::TypeMismatch),
        }
    }

    /// The exact outcome of a text read: a string column's row, a
    /// dictionary row resolved through its key, or a temporal row
    /// rendered as calendar or clock text.
    pub open spec fn spec_read_text(self, idx: int) -> Result<Seq<char>, Error> {
        match self {
            ArrayDeserializer::Null(_, len) => Err(Error::TypeMismatch),
            ArrayDeserializer::Bool(d) => Err(Error::TypeMismatch),
            ArrayDeserializer::I8(d) => Err(Error::TypeMismatch),
            ArrayDeserializer::I16(d) => Err(Error::TypeMismatch),
            ArrayDeserializer::I32(d) => Err(Error::TypeMismatch),
            ArrayDeserializer::I64(d) => Err(Error::TypeMismatch),
            ArrayDeserializer::U8(d) => Err(Error::TypeMismatch),
            ArrayDeserializer::U16(d) => Err(Error::TypeMismatch),
            ArrayDeserializer::U32(d) => Err(Error::TypeMismatch),
            ArrayDeserializer::U64(d) => Err(Error::TypeMismatch),
            ArrayDeserializer::Date32(d) => spec_date_read(d.array, idx, 1),
            ArrayDeserializer::Date64(d) => spec_date_read(d.array, idx, 86_400_000),
            ArrayDeserializer::Time32(d) => spec_time_read(d.array, idx, d.seconds_factor as int, d.nanoseconds_factor as int),
            ArrayDeserializer::Time64(d) => spec_time_read(d.array, idx, d.seconds_factor as int, d.nanoseconds_factor as int),
            ArrayDeserializer::Utf8(d) => spec_read_str(d.view, idx),
            ArrayDeserializer::LargeUtf8(d) => spec_read_str(d.view, idx),
            ArrayDeserializer::DictionaryI8I32(d) => spec_dict_str(d.keys, d.values, idx),
            ArrayDeserializer::DictionaryI8I64(d) => spec_dict_str(d.keys, d.values, idx),
            ArrayDeserializer::DictionaryI16I32(d) => spec_dict_str(d.keys, d.values, idx),
            ArrayDeserializer::DictionaryI16I64(d) => spec_dict_str(d.keys, d.values, idx),
            ArrayDeserializer::DictionaryI32I32(d) => spec_dict_str(d.keys, d.values, idx),
            ArrayDeserializer::DictionaryI32I64(d) => spec_dict_str(d.keys, d.values, idx),
            ArrayDeserializer::DictionaryI64I32(d) => spec_dict_str(d.keys, d.values, idx),
            ArrayDeserializer::DictionaryI64I64(d) => spec_dict_str(d.keys, d.values, idx),
            ArrayDeserializer::DictionaryU8I32(d) => spec_dict_str(d.keys, d.values, idx),
            ArrayDeserializer::DictionaryU8I64(d) => spec_dict_str(d.keys, d.values, idx),
            ArrayDeserializer::DictionaryU16I32(d) => spec_dict_str(d.keys, d.values, idx),
            ArrayDeserializer::DictionaryU16I64(d) => spec_dict_str(d.keys, d.values, idx),
            ArrayDeserializer::DictionaryU32I32(d) => spec_dict_str(d.keys, d.values, idx),
            ArrayDeserializer::DictionaryU32I64(d) => spec_dict_str(d.keys, d.values, idx),
            ArrayDeserializer::DictionaryU64I32(d) => spec_dict_str(d.keys, d.values, idx),
            ArrayDeserializer::DictionaryU64I64(d) => spec_dict_str(d.keys, d.values, idx),
        }
    }

    /// The exact outcome of a raw-bytes read of a string or dictionary
    /// column.
    pub open spec fn spec_read_bytes(self, idx: int) -> Result<Seq<u8>, Error> {
        match self {
            ArrayDeserializer::Null(_, len) => Err(Error::TypeMismatch),
            ArrayDeserializer::Bool(d) => Err(Error::TypeMismatch),
            ArrayDeserializer::I8(d) => Err(Error::TypeMismatch),
            ArrayDeserializer::I16(d) => Err(Error::TypeMismatch),
            ArrayDeserializer::I32(d) => Err(Error::TypeMismatch),
            ArrayDeserializer::I64(d) => Err(Error::TypeMismatch),
            ArrayDeserializer::U8(d) => Err(Error::TypeMismatch),
            ArrayDeserializer::U16(d) => Err(Error::TypeMismatch),
            ArrayDeserializer::U32(d) => Err(Error::TypeMismatch),
            ArrayDeserializer::U64(d) => Err(Error::TypeMismatch),
            ArrayDeserializer::Date32(d) => Err(Error::TypeMismatch),
            ArrayDeserializer::Date64(d) => Err(Error::TypeMismatch),
            ArrayDeserializer::Time32(d) => Err(Error::TypeMismatch),
            ArrayDeserializer::Time64(d) => Err(Error::TypeMismatch),
            ArrayDeserializer::Utf8(d) => d.view.spec_get_bytes(idx),
            ArrayDeserializer::LargeUtf8(d) => d.view.spec_get_bytes(idx),
            ArrayDeserializer::DictionaryI8I32(d) => spec_dict_bytes(d.keys, d.values, idx),
            ArrayDeserializer::DictionaryI8I64(d) => spec_dict_bytes(d.keys, d.values, idx),
            ArrayDeserializer::DictionaryI16I32(d) => spec_dict_bytes(d.keys, d.values, idx),
            ArrayDeserializer::DictionaryI16I64(d) => spec_dict_bytes(d.keys, d.values, idx),
            ArrayDeserializer::DictionaryI32I32(d) => spec_dict_bytes(d.keys, d.values, idx),
            ArrayDeserializer::DictionaryI32I64(d) => spec_dict_bytes(d.keys, d.values, idx),
            ArrayDeserializer::DictionaryI64I32(d) => spec_dict_bytes(d.keys, d.values, idx),
            ArrayDeserializer::DictionaryI64I64(d) => spec_dict_bytes(d.keys, d.values, idx),
            ArrayDeserializer::DictionaryU8I32(d) => spec_dict_bytes(d.keys, d.values, idx),
            ArrayDeserializer::DictionaryU8I64(d) => spec_dict_bytes(d.keys, d.values, idx),
            ArrayDeserializer::DictionaryU16I32(d) => spec_dict_bytes(d.keys, d.values, idx),
            ArrayDeserializer::DictionaryU16I64(d) => spec_dict_bytes(d.keys, d.values, idx),
            ArrayDeserializer::DictionaryU32I32(d) => spec_dict_bytes(d.keys, d.values, idx),
            ArrayDeserializer::DictionaryU32I64(d) => spec_dict_bytes(d.keys, d.values, idx),
            ArrayDeserializer::DictionaryU64I32(d) => spec_dict_bytes(d.keys, d.values, idx),
            ArrayDeserializer::DictionaryU64I64(d) => spec_dict_bytes(d.keys, d.values, idx),
        }
    }
}

/// The reader a view dispatches to, variant by variant; dictionary
/// views pair each of the eight key widths with each of the two value
/// offset widths.
pub open spec fn spec_new_deserializer(path: String, view: ArrayView) -> ArrayDeserializer {
    match view {
        ArrayView::Null(len) => ArrayDeserializer::Null(path, len),
        ArrayView::Boolean(v) => ArrayDeserializer::Bool(BoolDeserializer { path, view: v }),
        ArrayView::Int8(v) => ArrayDeserializer::I8(IntegerDeserializer { path, view: v }),
        ArrayView::Int16(v) => ArrayDeserializer::I16(IntegerDeserializer { path, view: v }),
        ArrayView::Int32(v) => ArrayDeserializer::I32(IntegerDeserializer { path, view: v }),
        ArrayView::Int64(v) => ArrayDeserializer::I64(IntegerDeserializer { path, view: v }),
        ArrayView::UInt8(v) => ArrayDeserializer::U8(IntegerDeserializer { path, view: v }),
        ArrayView::UInt16(v) => ArrayDeserializer::U16(IntegerDeserializer { path, view: v }),
        ArrayView::UInt32(v) => ArrayDeserializer::U32(IntegerDeserializer { path, view: v }),
        ArrayView::UInt64(v) => ArrayDeserializer::U64(IntegerDeserializer { path, view: v }),
        ArrayView::Date32(v) => ArrayDeserializer::Date32(DateDeserializer { path, array: v }),
        ArrayView::Date64(v) => ArrayDeserializer::Date64(DateDeserializer { path, array: v }),
        ArrayView::Time32(unit, v) => ArrayDeserializer::Time32(TimeDeserializer {
            path,
            array: v,
            seconds_factor: spec_sf(unit),
            nanoseconds_factor: spec_nf(unit),
        }),
        ArrayView::Time64(unit, v) => ArrayDeserializer::Time64(TimeDeserializer {
            path,
            array: v,
            seconds_factor: spec_sf(unit),
            nanoseconds_factor: spec_nf(unit),
        }),
        ArrayView::Utf8(v) => ArrayDeserializer::Utf8(StringDeserializer { path, view: v }),
        ArrayView::LargeUtf8(v) => ArrayDeserializer::LargeUtf8(StringDeserializer { path, view: v }),
        ArrayView::Dictionary(keys, values) => match (keys, values) {
            (DictionaryKeysView::I8(k), DictionaryValuesView::Utf8(v)) => ArrayDeserializer::DictionaryI8I32(
                DictionaryDeserializer { path, keys: k, values: v },
            ),
            (DictionaryKeysView::I8(k), DictionaryValuesView::LargeUtf8(v)) => ArrayDeserializer::DictionaryI8I64(
                DictionaryDeserializer { path, keys: k, values: v },
            ),
            (DictionaryKeysView::I16(k), DictionaryValuesView::Utf8(v)) => ArrayDeserializer::DictionaryI16I32(
                DictionaryDeserializer { path, keys: k, values: v },
            ),
            (DictionaryKeysView::I16(k), DictionaryValuesView::LargeUtf8(v)) => ArrayDeserializer::DictionaryI16I64(
                DictionaryDeserializer { path, keys: k, values: v },
            ),
            (DictionaryKeysView::I32(k), DictionaryValuesView::Utf8(v)) => ArrayDeserializer::DictionaryI32I32(
                DictionaryDeserializer { path, keys: k, values: v },
            ),
            (DictionaryKeysView::I32(k), DictionaryValuesView::LargeUtf8(v)) => ArrayDeserializer::DictionaryI32I64(
                DictionaryDeserializer { path, keys: k, values: v },
            ),
            (DictionaryKeysView::I64(k), DictionaryValuesView::Utf8(v)) => ArrayDeserializer::DictionaryI64I32(
                DictionaryDeserializer { path, keys: k, values: v },
            ),
            (DictionaryKeysView::I64(k), DictionaryValuesView::LargeUtf8(v)) => ArrayDeserializer::DictionaryI64I64(
                DictionaryDeserializer { path, keys: k, values: v },
            ),
            (DictionaryKeysView::U8(k), DictionaryValuesView::Utf8(v)) => ArrayDeserializer::DictionaryU8I32(
                DictionaryDeserializer { path, keys: k, values: v },
            ),
            (DictionaryKeysView::U8(k), DictionaryValuesView::LargeUtf8(v)) => ArrayDeserializer::DictionaryU8I64(
                DictionaryDeserializer { path, keys: k, values: v },
            ),
            (DictionaryKeysView::U16(k), DictionaryValuesView::Utf8(v)) => ArrayDeserializer::DictionaryU16I32(
                DictionaryDeserializer { path, keys: k, values: v },
            ),
            (DictionaryKeysView::U16(k), DictionaryValuesView::LargeUtf8(v)) => ArrayDeserializer::DictionaryU16I64(
                DictionaryDeserializer { path, keys: k, values: v },
            ),
            (DictionaryKeysView::U32(k), DictionaryValuesView::Utf8(v)) => ArrayDeserializer::DictionaryU32I32(
                DictionaryDeserializer { path, keys: k, values: v },
            ),
            (DictionaryKeysView::U32(k), DictionaryValuesView::LargeUtf8(v)) => ArrayDeserializer::DictionaryU32I64(
                DictionaryDeserializer { path, keys: k, values: v },
            ),
            (DictionaryKeysView::U64(k), DictionaryValuesView::Utf8(v)) => ArrayDeserializer::DictionaryU64I32(
                DictionaryDeserializer { path, keys: k, values: v },
            ),
            (DictionaryKeysView::U64(k), DictionaryValuesView::LargeUtf8(v)) => ArrayDeserializer::DictionaryU64I64(
                DictionaryDeserializer { path, keys: k, values: v },
            ),
        },
    }
}

pub open spec fn spec_sf(unit: crate::array::TimeUnit) -> i64 {
    match unit {
        crate::array::TimeUnit::Nanosecond => 1_000_000_000i64,
        crate::array::TimeUnit::Microsecond => 1_000_000i64,
        crate::array::TimeUnit::Millisecond => 1_000i64,
        crate::array::TimeUnit::Second => 1i64,
    }
}

pub open spec fn spec_nf(unit: crate::array::TimeUnit) -> i64 {
    match unit {
        crate::array::TimeUnit::Nanosecond => 1i64,
        crate::array::TimeUnit::Microsecond => 1_000i64,
        crate::array::TimeUnit::Millisecond => 1_000_000i64,
        crate::array::TimeUnit::Second => 1_000_000_000i64,
    }
}

impl ArrayDeserializer {
    /// Selects the reader for a view: each physical layout dispatches to
    /// its own typed reader.
    pub fn new(path: String, view: ArrayView) -> (r: Self)
        ensures
            r == spec_new_deserializer(path, view),
            view_wf(view) ==> r.wf(),
    {
        match view {
            ArrayView::Null(len) => ArrayDeserializer::Null(path, len),
            ArrayView::Boolean(v) => ArrayDeserializer::Bool(BoolDeserializer { path, view: v }),
            ArrayView::Int8(v) => ArrayDeserializer::I8(IntegerDeserializer { path, view: v }),
            ArrayView::Int16(v) => ArrayDeserializer::I16(IntegerDeserializer { path, view: v }),
            ArrayView::Int32(v) => ArrayDeserializer::I32(IntegerDeserializer { path, view: v }),
            ArrayView::Int64(v) => ArrayDeserializer::I64(IntegerDeserializer { path, view: v }),
            ArrayView::UInt8(v) => ArrayDeserializer::U8(IntegerDeserializer { path, view: v }),
            ArrayView::UInt16(v) => ArrayDeserializer::U16(IntegerDeserializer { path, view: v }),
            ArrayView::UInt32(v) => ArrayDeserializer::U32(IntegerDeserializer { path, view: v }),
            ArrayView::UInt64(v) => ArrayDeserializer::U64(IntegerDeserializer { path, view: v }),
            ArrayView::Date32(v) => ArrayDeserializer::Date32(DateDeserializer { path, array: v }),
            ArrayView::Date64(v) => ArrayDeserializer::Date64(DateDeserializer { path, array: v }),
            ArrayView::Time32(unit, v) => {
                let (sf, nf): (i64, i64) = match unit {
                    crate::array::TimeUnit::Nanosecond => (1_000_000_000, 1),
                    crate::array::TimeUnit::Microsecond => (1_000_000, 1_000),
                    crate::array::TimeUnit::Millisecond => (1_000, 1_000_000),
                    crate::array::TimeUnit::Second => (1, 1_000_000_000),
                };
                ArrayDeserializer::Time32(TimeDeserializer {
                    path,
                    array: v,
                    seconds_factor: sf,
                    nanoseconds_factor: nf,
                })
            },
            ArrayView::Time64(unit, v) => {
                let (sf, nf): (i64, i64) = match unit {
                    crate::array::TimeUnit::Nanosecond => (1_000_000_000, 1),
                    crate::array::TimeUnit::Microsecond => (1_000_000, 1_000),
                    crate::array::TimeUnit::Millisecond => (1_000, 1_000_000),
                    crate::array::TimeUnit::Second => (1, 1_000_000_000),
                };
                ArrayDeserializer::Time64(TimeDeserializer {
                    path,
                    array: v,
                    seconds_factor: sf,
                    nanoseconds_factor: nf,
                })
            },
            ArrayView::Utf8(v) => ArrayDeserializer::Utf8(StringDeserializer { path, view: v }),
            ArrayView::LargeUtf8(v) => ArrayDeserializer::LargeUtf8(StringDeserializer { path, view: v }),
            ArrayView::Dictionary(keys, values) => match (keys, values) {
                (DictionaryKeysView::I8(k), DictionaryValuesView::Utf8(v)) => ArrayDeserializer::DictionaryI8I32(
                    DictionaryDeserializer { path, keys: k, values: v },
                ),
                (DictionaryKeysView::I8(k), DictionaryValuesView::LargeUtf8(v)) => ArrayDeserializer::DictionaryI8I64(
                    DictionaryDeserializer { path, keys: k, values: v },
                ),
                (DictionaryKeysView::I16(k), DictionaryValuesView::Utf8(v)) => ArrayDeserializer::DictionaryI16I32(
                    DictionaryDeserializer { path, keys: k, values: v },
                ),
                (DictionaryKeysView::I16(k), DictionaryValuesView::LargeUtf8(v)) => ArrayDeserializer::DictionaryI16I64(
                    DictionaryDeserializer { path, keys: k, values: v },
                ),
                (DictionaryKeysView::I32(k), DictionaryValuesView::Utf8(v)) => ArrayDeserializer::DictionaryI32I32(
                    DictionaryDeserializer { path, keys: k, values: v },
                ),
                (DictionaryKeysView::I32(k), DictionaryValuesView::LargeUtf8(v)) => ArrayDeserializer::DictionaryI32I64(
                    DictionaryDeserializer { path, keys: k, values: v },
                ),
                (DictionaryKeysView::I64(k), DictionaryValuesView::Utf8(v)) => ArrayDeserializer::DictionaryI64I32(
                    DictionaryDeserializer { path, keys: k, values: v },
                ),
                (DictionaryKeysView::I64(k), DictionaryValuesView::LargeUtf8(v)) => ArrayDeserializer::DictionaryI64I64(
                    DictionaryDeserializer { path, keys: k, values: v },
                ),
                (DictionaryKeysView::U8(k), DictionaryValuesView::Utf8(v)) => ArrayDeserializer::DictionaryU8I32(
                    DictionaryDeserializer { path, keys: k, values: v },
                ),
                (DictionaryKeysView::U8(k), DictionaryValuesView::LargeUtf8(v)) => ArrayDeserializer::DictionaryU8I64(
                    DictionaryDeserializer { path, keys: k, values: v },
                ),
                (DictionaryKeysView::U16(k), DictionaryValuesView::Utf8(v)) => ArrayDeserializer::DictionaryU16I32(
                    DictionaryDeserializer { path, keys: k, values: v },
                ),
                (DictionaryKeysView::U16(k), DictionaryValuesView::LargeUtf8(v)) => ArrayDeserializer::DictionaryU16I64(
                    DictionaryDeserializer { path, keys: k, values: v },
                ),
                (DictionaryKeysView::U32(k), DictionaryValuesView::Utf8(v)) => ArrayDeserializer::DictionaryU32I32(
                    DictionaryDeserializer { path, keys: k, values: v },
                ),
                (DictionaryKeysView::U32(k), DictionaryValuesView::LargeUtf8(v)) => ArrayDeserializer::DictionaryU32I64(
                    DictionaryDeserializer { path, keys: k, values: v },
                ),
                (DictionaryKeysView::U64(k), DictionaryValuesView::Utf8(v)) => ArrayDeserializer::DictionaryU64I32(
                    DictionaryDeserializer { path, keys: k, values: v },
                ),
                (DictionaryKeysView::U64(k), DictionaryValuesView::LargeUtf8(v)) => ArrayDeserializer::DictionaryU64I64(
                    DictionaryDeserializer { path, keys: k, values: v },
                ),
            },
        }
    }

    pub fn is_some(&self, idx: usize) -> (r: Result<bool, Error>)
        requires
            self.wf(),
        ensures
            r == self.spec_is_some(idx as int),
    {
        match self {
            ArrayDeserializer::Null(_, len) => if idx >= *len { Err(Error::OutOfRange) } else { Ok(false) },
            ArrayDeserializer::Bool(d) => d.is_some(idx),
            ArrayDeserializer::I8(d) => d.is_some(idx),
            ArrayDeserializer::I16(d) => d.is_some(idx),
            ArrayDeserializer::I32(d) => d.is_some(idx),
            ArrayDeserializer::I64(d) => d.is_some(idx),
            ArrayDeserializer::U8(d) => d.is_some(idx),
            ArrayDeserializer::U16(d) => d.is_some(idx),
            ArrayDeserializer::U32(d) => d.is_some(idx),
            ArrayDeserializer::U64(d) => d.is_some(idx),
            ArrayDeserializer::Date32(d) => d.is_some(idx),
            ArrayDeserializer::Date64(d) => d.is_some(idx),
            ArrayDeserializer::Time32(d) => d.is_some(idx),
            ArrayDeserializer::Time64(d) => d.is_some(idx),
            ArrayDeserializer::Utf8(d) => d.is_some(idx),
            ArrayDeserializer::LargeUtf8(d) => d.is_some(idx),
            ArrayDeserializer::DictionaryI8I32(d) => d.is_some(idx),
            ArrayDeserializer::DictionaryI8I64(d) => d.is_some(idx),
            ArrayDeserializer::DictionaryI16I32(d) => d.is_some(idx),
            ArrayDeserializer::DictionaryI16I64(d) => d.is_some(idx),
            ArrayDeserializer::DictionaryI32I32(d) => d.is_some(idx),
            ArrayDeserializer::DictionaryI32I64(d) => d.is_some(idx),
            ArrayDeserializer::DictionaryI64I32(d) => d.is_some(idx),
            ArrayDeserializer::DictionaryI64I64(d) => d.is_some(idx),
            ArrayDeserializer::DictionaryU8I32(d) => d.is_some(idx),
            ArrayDeserializer::DictionaryU8I64(d) => d.is_some(idx),
            ArrayDeserializer::DictionaryU16I32(d) => d.is_some(idx),
            ArrayDeserializer::DictionaryU16I64(d) => d.is_some(idx),
            ArrayDeserializer::DictionaryU32I32(d) => d.is_some(idx),
            ArrayDeserializer::DictionaryU32I64(d) => d.is_some(idx),
            ArrayDeserializer::DictionaryU64I32(d) => d.is_some(idx),
            ArrayDeserializer::DictionaryU64I64(d) => d.is_some(idx),
        }
    }

    pub fn deserialize_bool(&self, idx: usize) -> (r: Result<bool, Error>)
        requires
            self.wf(),
        ensures
            r == self.spec_read_bool(idx as int),
    {
        match self {
            ArrayDeserializer::Null(_, len) => Err(Error::TypeMismatch),
            ArrayDeserializer::Bool(d) => d.deserialize_bool(idx),
            ArrayDeserializer::I8(d) => d.deserialize_bool(idx),
            ArrayDeserializer::I16(d) => d.deserialize_bool(idx),
            ArrayDeserializer::I32(d) => d.deserialize_bool(idx),
            ArrayDeserializer::I64(d) => d.deserialize_bool(idx),
            ArrayDeserializer::U8(d) => d.deserialize_bool(idx),
            ArrayDeserializer::U16(d) => d.deserialize_bool(idx),
            ArrayDeserializer::U32(d) => d.deserialize_bool(idx),
            ArrayDeserializer::U64(d) => d.deserialize_bool(idx),
            ArrayDeserializer::Date32(d) => Err(Error::TypeMismatch),
            ArrayDeserializer::Date64(d) => Err(Error::TypeMismatch),
            ArrayDeserializer::Time32(d) => Err(Error::TypeMismatch),
            ArrayDeserializer::Time64(d) => Err(Error::TypeMismatch),
            ArrayDeserializer::Utf8(d) => Err(Error::TypeMismatch),
            ArrayDeserializer::LargeUtf8(d) => Err(Error::TypeMismatch),
            ArrayDeserializer::DictionaryI8I32(d) => Err(Error::TypeMismatch),
            ArrayDeserializer::DictionaryI8I64(d) => Err(Error::TypeMismatch),
            ArrayDeserializer::DictionaryI16I32(d) => Err(Error::TypeMismatch),
            ArrayDeserializer::DictionaryI16I64(d) => Err(Error::TypeMismatch),
            ArrayDeserializer::DictionaryI32I32(d) => Err(Error::TypeMismatch),
            ArrayDeserializer::DictionaryI32I64(d) => Err(Error::TypeMismatch),
            ArrayDeserializer::DictionaryI64I32(d) => Err(Error::TypeMismatch),
            ArrayDeserializer::DictionaryI64I64(d) => Err(Error::TypeMismatch),
            ArrayDeserializer::DictionaryU8I32(d) => Err(Error::TypeMismatch),
            ArrayDeserializer::DictionaryU8I64(d) => Err(Error::TypeMismatch),
            ArrayDeserializer::DictionaryU16I32(d) => Err(Error::TypeMismatch),
            ArrayDeserializer::DictionaryU16I64(d) => Err(Error::TypeMismatch),
            ArrayDeserializer::DictionaryU32I32(d) => Err(Error::TypeMismatch),
            ArrayDeserializer::DictionaryU32I64(d) => Err(Error::TypeMismatch),
            ArrayDeserializer::DictionaryU64I32(d) => Err(Error::TypeMismatch),
            ArrayDeserializer::DictionaryU64I64(d) => Err(Error::TypeMismatch),
        }
    }

    pub fn deserialize_i8(&self, idx: usize) -> (r: Result<i8, Error>)
        requires
            self.wf(),
        ensures
            match r {
                Ok(v) => self.spec_read_int(idx as int, i8::MIN as int, i8::MAX as int) == Ok::<int, Error>(v as int),
                Err(e) => self.spec_read_int(idx as int, i8::MIN as int, i8::MAX as int) == Err::<int, Error>(e),
            },
    {
        match self {
            ArrayDeserializer::Null(_, len) => Err(Error::TypeMismatch),
            ArrayDeserializer::Bool(d) => Err(Error::TypeMismatch),
            ArrayDeserializer::I8(d) => d.deserialize_i8(idx),
            ArrayDeserializer::I16(d) => d.deserialize_i8(idx),
            ArrayDeserializer::I32(d) => d.deserialize_i8(idx),
            ArrayDeserializer::I64(d) => d.deserialize_i8(idx),
            ArrayDeserializer::U8(d) => d.deserialize_i8(idx),
            ArrayDeserializer::U16(d) => d.deserialize_i8(idx),
            ArrayDeserializer::U32(d) => d.deserialize_i8(idx),
            ArrayDeserializer::U64(d) => d.deserialize_i8(idx),
            ArrayDeserializer::Date32(d) => Err(Error::TypeMismatch),
            ArrayDeserializer::Date64(d) => Err(Error::TypeMismatch),
            ArrayDeserializer::Time32(d) => Err(Error::TypeMismatch),
            ArrayDeserializer::Time64(d) => Err(Error::TypeMismatch),
            ArrayDeserializer::Utf8(d) => Err(Error::TypeMismatch),
            ArrayDeserializer::LargeUtf8(d) => Err(Error::TypeMismatch),
            ArrayDeserializer::DictionaryI8I32(d) => Err(Error::TypeMismatch),
            ArrayDeserializer::DictionaryI8I64(d) => Err(Error::TypeMismatch),
            ArrayDeserializer::DictionaryI16I32(d) => Err(Error::TypeMismatch),
            ArrayDeserializer::DictionaryI16I64(d) => Err(Error::TypeMismatch),
            ArrayDeserializer::DictionaryI32I32(d) => Err(Error::TypeMismatch),
            ArrayDeserializer::DictionaryI32I64(d) => Err(Error::TypeMismatch),
            ArrayDeserializer::DictionaryI64I32(d) => Err(Error::TypeMismatch),
            ArrayDeserializer::DictionaryI64I64(d) => Err(Error::TypeMismatch),
            ArrayDeserializer::DictionaryU8I32(d) => Err(Error::TypeMismatch),
            ArrayDeserializer::DictionaryU8I64(d) => Err(Error::TypeMismatch),
            ArrayDeserializer::DictionaryU16I32(d) => Err(Error::TypeMismatch),
            ArrayDeserializer::DictionaryU16I64(d) => Err(Error::TypeMismatch),
            ArrayDeserializer::DictionaryU32I32(d) => Err(Error::TypeMismatch),
            ArrayDeserializer::DictionaryU32I64(d) => Err(Error::TypeMismatch),
            ArrayDeserializer::DictionaryU64I32(d) => Err(Error::TypeMismatch),
            ArrayDeserializer::DictionaryU64I64(d) => Err(Error::TypeMismatch),
        }
    }

    pub fn deserialize_i16(&self, idx: usize) -> (r: Result<i16, Error>)
        requires
            self.wf(),
        ensures
            match r {
                Ok(v) => self.spec_read_int(idx as int, i16::MIN as int, i16::MAX as int) == Ok::<int, Error>(v as int),
                Err(e) => self.spec_read_int(idx as int, i16::MIN as int, i16::MAX as int) == Err::<int, Error>(e),
            },
    {
        match self {
            ArrayDeserializer::Null(_, len) => Err(Error::TypeMismatch),
            ArrayDeserializer::Bool(d) => Err(Error::TypeMismatch),
            ArrayDeserializer::I8(d) => d.deserialize_i16(idx),
            ArrayDeserializer::I16(d) => d.deserialize_i16(idx),
            ArrayDeserializer::I32(d) => d.deserialize_i16(idx),
            ArrayDeserializer::I64(d) => d.deserialize_i16(idx),
            ArrayDeserializer::U8(d) => d.deserialize_i16(idx),
            ArrayDeserializer::U16(d) => d.deserialize_i16(idx),
            ArrayDeserializer::U32(d) => d.deserialize_i16(idx),
            ArrayDeserializer::U64(d) => d.deserialize_i16(idx),
            ArrayDeserializer::Date32(d) => Err(Error::TypeMismatch),
            ArrayDeserializer::Date64(d) => Err(Error::TypeMismatch),
            ArrayDeserializer::Time32(d) => Err(Error::TypeMismatch),
            ArrayDeserializer::Time64(d) => Err(Error::TypeMismatch),
            ArrayDeserializer::Utf8(d) => Err(Error::TypeMismatch),
            ArrayDeserializer::LargeUtf8(d) => Err(Error::TypeMismatch),
            ArrayDeserializer::DictionaryI8I32(d) => Err(Error::TypeMismatch),
            ArrayDeserializer::DictionaryI8I64(d) => Err(Error::TypeMismatch),
            ArrayDeserializer::DictionaryI16I32(d) => Err(Error::TypeMismatch),
            ArrayDeserializer::DictionaryI16I64(d) => Err(Error::TypeMismatch),
            ArrayDeserializer::DictionaryI32I32(d) => Err(Error::TypeMismatch),
            ArrayDeserializer::DictionaryI32I64(d) => Err(Error::TypeMismatch),
            ArrayDeserializer::DictionaryI64I32(d) => Err(Error::TypeMismatch),
            ArrayDeserializer::DictionaryI64I64(d) => Err(Error::TypeMismatch),
            ArrayDeserializer::DictionaryU8I32(d) => Err(Error::TypeMismatch),
            ArrayDeserializer::DictionaryU8I64(d) => Err(Error::TypeMismatch),
            ArrayDeserializer::DictionaryU16I32(d) => Err(Error::TypeMismatch),
            ArrayDeserializer::DictionaryU16I64(d) => Err(Error::TypeMismatch),
            ArrayDeserializer::DictionaryU32I32(d) => Err(Error::TypeMismatch),
            ArrayDeserializer::DictionaryU32I64(d) => Err(Error::TypeMismatch),
            ArrayDeserializer::DictionaryU64I32(d) => Err(Error::TypeMismatch),
            ArrayDeserializer::DictionaryU64I64(d) => Err(Error::TypeMismatch),
        }
    }

    pub fn deserialize_i32(&self, idx: usize) -> (r: Result<i32, Error>)
        requires
            self.wf(),
        ensures
            match r {
                Ok(v) => self.spec_read_int_wide(idx as int, i32::MIN as int, i32::MAX as int) == Ok::<int, Error>(v as int),
                Err(e) => self.spec_read_int_wide(idx as int, i32::MIN as int, i32::MAX as int) == Err::<int, Error>(e),
            },
    {
        match self {
            ArrayDeserializer::Null(_, len) => Err(Error::TypeMismatch),
            ArrayDeserializer::Bool(d) => Err(Error::TypeMismatch),
            ArrayDeserializer::I8(d) => d.deserialize_i32(idx),
            ArrayDeserializer::I16(d) => d.deserialize_i32(idx),
            ArrayDeserializer::I32(d) => d.deserialize_i32(idx),
            ArrayDeserializer::I64(d) => d.deserialize_i32(idx),
            ArrayDeserializer::U8(d) => d.deserialize_i32(idx),
            ArrayDeserializer::U16(d) => d.deserialize_i32(idx),
            ArrayDeserializer::U32(d) => d.deserialize_i32(idx),
            ArrayDeserializer::U64(d) => d.deserialize_i32(idx),
            ArrayDeserializer::Date32(d) => d.deserialize_i32(idx),
            ArrayDeserializer::Date64(d) => d.deserialize_i32(idx),
            ArrayDeserializer::Time32(d) => d.deserialize_i32(idx),
            ArrayDeserializer::Time64(d) => d.deserialize_i32(idx),
            ArrayDeserializer::Utf8(d) => Err(Error::TypeMismatch),
            ArrayDeserializer::LargeUtf8(d) => Err(Error::TypeMismatch),
            ArrayDeserializer::DictionaryI8I32(d) => Err(Error::TypeMismatch),
            ArrayDeserializer::DictionaryI8I64(d) => Err(Error::TypeMismatch),
            ArrayDeserializer::DictionaryI16I32(d) => Err(Error::TypeMismatch),
            ArrayDeserializer::DictionaryI16I64(d) => Err(Error::TypeMismatch),
            ArrayDeserializer::DictionaryI32I32(d) => Err(Error::TypeMismatch),
            ArrayDeserializer::DictionaryI32I64(d) => Err(Error::TypeMismatch),
            ArrayDeserializer::DictionaryI64I32(d) => Err(Error::TypeMismatch),
            ArrayDeserializer::DictionaryI64I64(d) => Err(Error::TypeMismatch),
            ArrayDeserializer::DictionaryU8I32(d) => Err(Error::TypeMismatch),
            ArrayDeserializer::DictionaryU8I64(d) => Err(Error::TypeMismatch),
            ArrayDeserializer::DictionaryU16I32(d) => Err(Error::TypeMismatch),
            ArrayDeserializer::DictionaryU16I64(d) => Err(Error::TypeMismatch),
            ArrayDeserializer::DictionaryU32I32(d) => Err(Error::TypeMismatch),
            ArrayDeserializer::DictionaryU32I64(d) => Err(Error::TypeMismatch),
            ArrayDeserializer::DictionaryU64I32(d) => Err(Error::TypeMismatch),
            ArrayDeserializer::DictionaryU64I64(d) => Err(Error::TypeMismatch),
        }
    }

    pub fn deserialize_i64(&self, idx: usize) -> (r: Result<i64, Error>)
        requires
            self.wf(),
        ensures
            match r {
                Ok(v) => self.spec_read_int_wide(idx as int, i64::MIN as int, i64::MAX as int) == Ok::<int, Error>(v as int),
                Err(e) => self.spec_read_int_wide(idx as int, i64::MIN as int, i64::MAX as int) == Err::<int, Error>(e),
            },
    {
        match self {
            ArrayDeserializer::Null(_, len) => Err(Error::TypeMismatch),
            ArrayDeserializer::Bool(d) => Err(Error::TypeMismatch),
            ArrayDeserializer::I8(d) => d.deserialize_i64(idx),
            ArrayDeserializer::I16(d) => d.deserialize_i64(idx),
            ArrayDeserializer::I32(d) => d.deserialize_i64(idx),
            ArrayDeserializer::I64(d) => d.deserialize_i64(idx),
            ArrayDeserializer::U8(d) => d.deserialize_i64(idx),
            ArrayDeserializer::U16(d) => d.deserialize_i64(idx),
            ArrayDeserializer::U32(d) => d.deserialize_i64(idx),
            ArrayDeserializer::U64(d) => d.deserialize_i64(idx),
            ArrayDeserializer::Date32(d) => d.deserialize_i64(idx),
            ArrayDeserializer::Date64(d) => d.deserialize_i64(idx),
            ArrayDeserializer::Time32(d) => d.deserialize_i64(idx),
            ArrayDeserializer::Time64(d) => d.deserialize_i64(idx),
            ArrayDeserializer::Utf8(d) => Err(Error::TypeMismatch),
            ArrayDeserializer::LargeUtf8(d) => Err(Error::TypeMismatch),
            ArrayDeserializer::DictionaryI8I32(d) => Err(Error::TypeMismatch),
            ArrayDeserializer::DictionaryI8I64(d) => Err(Error::TypeMismatch),
            ArrayDeserializer::DictionaryI16I32(d) => Err(Error::TypeMismatch),
            ArrayDeserializer::DictionaryI16I64(d) => Err(Error::TypeMismatch),
            ArrayDeserializer::DictionaryI32I32(d) => Err(Error::TypeMismatch),
            ArrayDeserializer::DictionaryI32I64(d) => Err(Error::TypeMismatch),
            ArrayDeserializer::DictionaryI64I32(d) => Err(Error::TypeMismatch),
            ArrayDeserializer::DictionaryI64I64(d) => Err(Error::TypeMismatch),
            ArrayDeserializer::DictionaryU8I32(d) => Err(Error::TypeMismatch),
            ArrayDeserializer::DictionaryU8I64(d) => Err(Error::TypeMismatch),
            ArrayDeserializer::DictionaryU16I32(d) => Err(Error::TypeMismatch),
            ArrayDeserializer::DictionaryU16I64(d) => Err(Error::TypeMismatch),
            ArrayDeserializer::DictionaryU32I32(d) => Err(Error::TypeMismatch),
            ArrayDeserializer::DictionaryU32I64(d) => Err(Error::TypeMismatch),
            ArrayDeserializer::DictionaryU64I32(d) => Err(Error::TypeMismatch),
            ArrayDeserializer::DictionaryU64I64(d) => Err(Error::TypeMismatch),
        }
    }

    pub fn deserialize_u8(&self, idx: usize) -> (r: Result<u8, Error>)
        requires
            self.wf(),
        ensures
            match r {
                Ok(v) => self.spec_read_int(idx as int, 0, u8::MAX as int) == Ok::<int, Error>(v as int),
                Err(e) => self.spec_read_int(idx as int, 0, u8::MAX as int) == Err::<int, Error>(e),
            },
    {
        match self {
            ArrayDeserializer::Null(_, len) => Err(Error::TypeMismatch),
            ArrayDeserializer::Bool(d) => Err(Error::TypeMismatch),
            ArrayDeserializer::I8(d) => d.deserialize_u8(idx),
            ArrayDeserializer::I16(d) => d.deserialize_u8(idx),
            ArrayDeserializer::I32(d) => d.deserialize_u8(idx),
            ArrayDeserializer::I64(d) => d.deserialize_u8(idx),
            ArrayDeserializer::U8(d) => d.deserialize_u8(idx),
            ArrayDeserializer::U16(d) => d.deserialize_u8(idx),
            ArrayDeserializer::U32(d) => d.deserialize_u8(idx),
            ArrayDeserializer::U64(d) => d.deserialize_u8(idx),
            ArrayDeserializer::Date32(d) => Err(Error::TypeMismatch),
            ArrayDeserializer::Date64(d) => Err(Error::TypeMismatch),
            ArrayDeserializer::Time32(d) => Err(Error::TypeMismatch),
            ArrayDeserializer::Time64(d) => Err(Error::TypeMismatch),
            ArrayDeserializer::Utf8(d) => Err(Error::TypeMismatch),
            ArrayDeserializer::LargeUtf8(d) => Err(Error::TypeMismatch),
            ArrayDeserializer::DictionaryI8I32(d) => Err(Error::TypeMismatch),
            ArrayDeserializer::DictionaryI8I64(d) => Err(Error::TypeMismatch),
            ArrayDeserializer::DictionaryI16I32(d) => Err(Error::TypeMismatch),
            ArrayDeserializer::DictionaryI16I64(d) => Err(Error::TypeMismatch),
            ArrayDeserializer::DictionaryI32I32(d) => Err(Error::TypeMismatch),
            ArrayDeserializer::DictionaryI32I64(d) => Err(Error::TypeMismatch),
            ArrayDeserializer::DictionaryI64I32(d) => Err(Error::TypeMismatch),
            ArrayDeserializer::DictionaryI64I64(d) => Err(Error::TypeMismatch),
            ArrayDeserializer::DictionaryU8I32(d) => Err(Error::TypeMismatch),
            ArrayDeserializer::DictionaryU8I64(d) => Err(Error::TypeMismatch),
            ArrayDeserializer::DictionaryU16I32(d) => Err(Error::TypeMismatch),
            ArrayDeserializer::DictionaryU16I64(d) => Err(Error::TypeMismatch),
            ArrayDeserializer::DictionaryU32I32(d) => Err(Error::TypeMismatch),
            ArrayDeserializer::DictionaryU32I64(d) => Err(Error::TypeMismatch),
            ArrayDeserializer::DictionaryU64I32(d) => Err(Error::TypeMismatch),
            ArrayDeserializer::DictionaryU64I64(d) => Err(Error::TypeMismatch),
        }
    }

    pub fn deserialize_u16(&self, idx: usize) -> (r: Result<u16, Error>)
        requires
            self.wf(),
        ensures
            match r {
                Ok(v) => self.spec_read_int(idx as int, 0, u16::MAX as int) == Ok::<int, Error>(v as int),
                Err(e) => self.spec_read_int(idx as int, 0, u16::MAX as int) == Err::<int, Error>(e),
            },
    {
        match self {
            ArrayDeserializer::Null(_, len) => Err(Error::TypeMismatch),
            ArrayDeserializer::Bool(d) => Err(Error::TypeMismatch),
            ArrayDeserializer::I8(d) => d.deserialize_u16(idx),
            ArrayDeserializer::I16(d) => d.deserialize_u16(idx),
            ArrayDeserializer::I32(d) => d.deserialize_u16(idx),
            ArrayDeserializer::I64(d) => d.deserialize_u16(idx),
            ArrayDeserializer::U8(d) => d.deserialize_u16(idx),
            ArrayDeserializer::U16(d) => d.deserialize_u16(idx),
            ArrayDeserializer::U32(d) => d.deserialize_u16(idx),
            ArrayDeserializer::U64(d) => d.deserialize_u16(idx),
            ArrayDeserializer::Date32(d) => Err(Error::TypeMismatch),
            ArrayDeserializer::Date64(d) => Err(Error::TypeMismatch),
            ArrayDeserializer::Time32(d) => Err(Error::TypeMismatch),
            ArrayDeserializer::Time64(d) => Err(Error::TypeMismatch),
            ArrayDeserializer::Utf8(d) => Err(Error::TypeMismatch),
            ArrayDeserializer::LargeUtf8(d) => Err(Error::TypeMismatch),
            ArrayDeserializer::DictionaryI8I32(d) => Err(Error::TypeMismatch),
            ArrayDeserializer::DictionaryI8I64(d) => Err(Error::TypeMismatch),
            ArrayDeserializer::DictionaryI16I32(d) => Err(Error::TypeMismatch),
            ArrayDeserializer::DictionaryI16I64(d) => Err(Error::TypeMismatch),
            ArrayDeserializer::DictionaryI32I32(d) => Err(Error::TypeMismatch),
            ArrayDeserializer::DictionaryI32I64(d) => Err(Error::TypeMismatch),
            ArrayDeserializer::DictionaryI64I32(d) => Err(Error::TypeMismatch),
            ArrayDeserializer::DictionaryI64I64(d) => Err(Error::TypeMismatch),
            ArrayDeserializer::DictionaryU8I32(d) => Err(Error::TypeMismatch),
            ArrayDeserializer::DictionaryU8I64(d) => Err(Error::TypeMismatch),
            ArrayDeserializer::DictionaryU16I32(d) => Err(Error::TypeMismatch),
            ArrayDeserializer::DictionaryU16I64(d) => Err(Error::TypeMismatch),
            ArrayDeserializer::DictionaryU32I32(d) => Err(Error::TypeMismatch),
            ArrayDeserializer::DictionaryU32I64(d) => Err(Error::TypeMismatch),
            ArrayDeserializer::DictionaryU64I32(d) => Err(Error::TypeMismatch),
            ArrayDeserializer::DictionaryU64I64(d) => Err(Error::TypeMismatch),
        }
    }

    pub fn deserialize_u32(&self, idx: usize) -> (r: Result<u32, Error>)
        requires
            self.wf(),
        ensures
            match r {
                Ok(v) => self.spec_read_int(idx as int, 0, u32::MAX as int) == Ok::<int, Error>(v as int),
                Err(e) => self.spec_read_int(idx as int, 0, u32::MAX as int) == Err::<int, Error>(e),
            },
    {
        match self {
            ArrayDeserializer::Null(_, len) => Err(Error::TypeMismatch),
            ArrayDeserializer::Bool(d) => Err(Error::TypeMismatch),
            ArrayDeserializer::I8(d) => d.deserialize_u32(idx),
            ArrayDeserializer::I16(d) => d.deserialize_u32(idx),
            ArrayDeserializer::I32(d) => d.deserialize_u32(idx),
            ArrayDeserializer::I64(d) => d.deserialize_u32(idx),
            ArrayDeserializer::U8(d) => d.deserialize_u32(idx),
            ArrayDeserializer::U16(d) => d.deserialize_u32(idx),
            ArrayDeserializer::U32(d) => d.deserialize_u32(idx),
            ArrayDeserializer::U64(d) => d.deserialize_u32(idx),
            ArrayDeserializer::Date32(d) => Err(Error::TypeMismatch),
            ArrayDeserializer::Date64(d) => Err(Error::TypeMismatch),
            ArrayDeserializer::Time32(d) => Err(Error::TypeMismatch),
            ArrayDeserializer::Time64(d) => Err(Error::TypeMismatch),
            ArrayDeserializer::Utf8(d) => Err(Error::TypeMismatch),
            ArrayDeserializer::LargeUtf8(d) => Err(Error::TypeMismatch),
            ArrayDeserializer::DictionaryI8I32(d) => Err(Error::TypeMismatch),
            ArrayDeserializer::DictionaryI8I64(d) => Err(Error::TypeMismatch),
            ArrayDeserializer::DictionaryI16I32(d) => Err(Error::TypeMismatch),
            ArrayDeserializer::DictionaryI16I64(d) => Err(Error::TypeMismatch),
            ArrayDeserializer::DictionaryI32I32(d) => Err(Error::TypeMismatch),
            ArrayDeserializer::DictionaryI32I64(d) => Err(Error::TypeMismatch),
            ArrayDeserializer::DictionaryI64I32(d) => Err(Error::TypeMismatch),
            ArrayDeserializer::DictionaryI64I64(d) => Err(Error::TypeMismatch),
            ArrayDeserializer::DictionaryU8I32(d) => Err(Error::TypeMismatch),
            ArrayDeserializer::DictionaryU8I64(d) => Err(Error::TypeMismatch),
            ArrayDeserializer::DictionaryU16I32(d) => Err(Error::TypeMismatch),
            ArrayDeserializer::DictionaryU16I64(d) => Err(Error::TypeMismatch),
            ArrayDeserializer::DictionaryU32I32(d) => Err(Error::TypeMismatch),
            ArrayDeserializer::DictionaryU32I64(d) => Err(Error::TypeMismatch),
            ArrayDeserializer::DictionaryU64I32(d) => Err(Error::TypeMismatch),
            ArrayDeserializer::DictionaryU64I64(d) => Err(Error::TypeMismatch),
        }
    }

    pub fn deserialize_u64(&self, idx: usize) -> (r: Result<u64, Error>)
        requires
            self.wf(),
        ensures
            match r {
                Ok(v) => self.spec_read_int(idx as int, 0, u64::MAX as int) == Ok::<int, Error>(v as int),
                Err(e) => self.spec_read_int(idx as int, 0, u64::MAX as int) == Err::<int, Error>(e),
            },
    {
        match self {
            ArrayDeserializer::Null(_, len) => Err(Error::TypeMismatch),
            ArrayDeserializer::Bool(d) => Err(Error::TypeMismatch),
            ArrayDeserializer::I8(d) => d.deserialize_u64(idx),
            ArrayDeserializer::I16(d) => d.deserialize_u64(idx),
            ArrayDeserializer::I32(d) => d.deserialize_u64(idx),
            ArrayDeserializer::I64(d) => d.deserialize_u64(idx),
            ArrayDeserializer::U8(d) => d.deserialize_u64(idx),
            ArrayDeserializer::U16(d) => d.deserialize_u64(idx),
            ArrayDeserializer::U32(d) => d.deserialize_u64(idx),
            ArrayDeserializer::U64(d) => d.deserialize_u64(idx),
            ArrayDeserializer::Date32(d) => Err(Error::TypeMismatch),
            ArrayDeserializer::Date64(d) => Err(Error::TypeMismatch),
            ArrayDeserializer::Time32(d) => Err(Error::TypeMismatch),
            ArrayDeserializer::Time64(d) => Err(Error::TypeMismatch),
            ArrayDeserializer::Utf8(d) => Err(Error::TypeMismatch),
            ArrayDeserializer::LargeUtf8(d) => Err(Error::TypeMismatch),
            ArrayDeserializer::DictionaryI8I32(d) => Err(Error::TypeMismatch),
            ArrayDeserializer::DictionaryI8I64(d) => Err(Error::TypeMismatch),
            ArrayDeserializer::DictionaryI16I32(d) => Err(Error::TypeMismatch),
            ArrayDeserializer::DictionaryI16I64(d) => Err(Error::TypeMismatch),
            ArrayDeserializer::DictionaryI32I32(d) => Err(Error::TypeMismatch),
            ArrayDeserializer::DictionaryI32I64(d) => Err(Error::TypeMismatch),
            ArrayDeserializer::DictionaryI64I32(d) => Err(Error::TypeMismatch),
            ArrayDeserializer::DictionaryI64I64(d) => Err(Error::TypeMismatch),
            ArrayDeserializer::DictionaryU8I32(d) => Err(Error::TypeMismatch),
            ArrayDeserializer::DictionaryU8I64(d) => Err(Error::TypeMismatch),
            ArrayDeserializer::DictionaryU16I32(d) => Err(Error::TypeMismatch),
            ArrayDeserializer::DictionaryU16I64(d) => Err(Error::TypeMismatch),
            ArrayDeserializer::DictionaryU32I32(d) => Err(Error::TypeMismatch),
            ArrayDeserializer::DictionaryU32I64(d) => Err(Error::TypeMismatch),
            ArrayDeserializer::DictionaryU64I32(d) => Err(Error::TypeMismatch),
            ArrayDeserializer::DictionaryU64I64(d) => Err(Error::TypeMismatch),
        }
    }

    pub fn deserialize_str(&self, idx: usize) -> (r: Result<String, Error>)
        requires
            self.wf(),
        ensures
            match r {
                Ok(s) => self.spec_read_text(idx as int) == Ok::<Seq<char>, Error>(s@),
                Err(e) => self.spec_read_text(idx as int) == Err::<Seq<char>, Error>(e),
            },
    {
        match self {
            ArrayDeserializer::Null(_, len) => Err(Error::TypeMismatch),
            ArrayDeserializer::Bool(d) => Err(Error::TypeMismatch),
            ArrayDeserializer::I8(d) => Err(Error::TypeMismatch),
            ArrayDeserializer::I16(d) => Err(Error::TypeMismatch),
            ArrayDeserializer::I32(d) => Err(Error::TypeMismatch),
            ArrayDeserializer::I64(d) => Err(Error::TypeMismatch),
            ArrayDeserializer::U8(d) => Err(Error::TypeMismatch),
            ArrayDeserializer::U16(d) => Err(Error::TypeMismatch),
            ArrayDeserializer::U32(d) => Err(Error::TypeMismatch),
            ArrayDeserializer::U64(d) => Err(Error::TypeMismatch),
            ArrayDeserializer::Date32(d) => d.deserialize_str(idx),
            ArrayDeserializer::Date64(d) => d.deserialize_str(idx),
            ArrayDeserializer::Time32(d) => d.deserialize_str(idx),
            ArrayDeserializer::Time64(d) => d.deserialize_str(idx),
            ArrayDeserializer::Utf8(d) => d.deserialize_str(idx),
            ArrayDeserializer::LargeUtf8(d) => d.deserialize_str(idx),
            ArrayDeserializer::DictionaryI8I32(d) => d.deserialize_str(idx),
            ArrayDeserializer::DictionaryI8I64(d) => d.deserialize_str(idx),
            ArrayDeserializer::DictionaryI16I32(d) => d.deserialize_str(idx),
            ArrayDeserializer::DictionaryI16I64(d) => d.deserialize_str(idx),
            ArrayDeserializer::DictionaryI32I32(d) => d.deserialize_str(idx),
            ArrayDeserializer::DictionaryI32I64(d) => d.deserialize_str(idx),
            ArrayDeserializer::DictionaryI64I32(d) => d.deserialize_str(idx),
            ArrayDeserializer::DictionaryI64I64(d) => d.deserialize_str(idx),
            ArrayDeserializer::DictionaryU8I32(d) => d.deserialize_str(idx),
            ArrayDeserializer::DictionaryU8I64(d) => d.deserialize_str(idx),
            ArrayDeserializer::DictionaryU16I32(d) => d.deserialize_str(idx),
            ArrayDeserializer::DictionaryU16I64(d) => d.deserialize_str(idx),
            ArrayDeserializer::DictionaryU32I32(d) => d.deserialize_str(idx),
            ArrayDeserializer::DictionaryU32I64(d) => d.deserialize_str(idx),
            ArrayDeserializer::DictionaryU64I32(d) => d.deserialize_str(idx),
            ArrayDeserializer::DictionaryU64I64(d) => d.deserialize_str(idx),
        }
    }

    pub fn deserialize_bytes(&self, idx: usize) -> (r: Result<Vec<u8>, Error>)
        requires
            self.wf(),
        ensures
            match r {
                Ok(v) => self.spec_read_bytes(idx as int) == Ok::<Seq<u8>, Error>(v@),
                Err(e) => self.spec_read_bytes(idx as int) == Err::<Seq<u8>, Error>(e),
            },
    {
        match self {
            ArrayDeserializer::Null(_, len) => Err(Error::TypeMismatch),
            ArrayDeserializer::Bool(d) => Err(Error::TypeMismatch),
            ArrayDeserializer::I8(d) => Err(Error::TypeMismatch),
            ArrayDeserializer::I16(d) => Err(Error::TypeMismatch),
            ArrayDeserializer::I32(d) => Err(Error::TypeMismatch),
            ArrayDeserializer::I64(d) => Err(Error::TypeMismatch),
            ArrayDeserializer::U8(d) => Err(Error::TypeMismatch),
            ArrayDeserializer::U16(d) => Err(Error::TypeMismatch),
            ArrayDeserializer::U32(d) => Err(Error::TypeMismatch),
            ArrayDeserializer::U64(d) => Err(Error::TypeMismatch),
            ArrayDeserializer::Date32(d) => Err(Error::TypeMismatch),
            ArrayDeserializer::Date64(d) => Err(Error::TypeMismatch),
            ArrayDeserializer::Time32(d) => Err(Error::TypeMismatch),
            ArrayDeserializer::Time64(d) => Err(Error::TypeMismatch),
            ArrayDeserializer::Utf8(d) => d.deserialize_bytes(idx),
            ArrayDeserializer::LargeUtf8(d) => d.deserialize_bytes(idx),
            ArrayDeserializer::DictionaryI8I32(d) => d.deserialize_bytes(idx),
            ArrayDeserializer::DictionaryI8I64(d) => d.deserialize_bytes(idx),
            ArrayDeserializer::DictionaryI16I32(d) => d.deserialize_bytes(idx),
            ArrayDeserializer::DictionaryI16I64(d) => d.deserialize_bytes(idx),
            ArrayDeserializer::DictionaryI32I32(d) => d.deserialize_bytes(idx),
            ArrayDeserializer::DictionaryI32I64(d) => d.deserialize_bytes(idx),
            ArrayDeserializer::DictionaryI64I32(d) => d.deserialize_bytes(idx),
            ArrayDeserializer::DictionaryI64I64(d) => d.deserialize_bytes(idx),
            ArrayDeserializer::DictionaryU8I32(d) => d.deserialize_bytes(idx),
            ArrayDeserializer::DictionaryU8I64(d) => d.deserialize_bytes(idx),
            ArrayDeserializer::DictionaryU16I32(d) => d.deserialize_bytes(idx),
            ArrayDeserializer::DictionaryU16I64(d) => d.deserialize_bytes(idx),
            ArrayDeserializer::DictionaryU32I32(d) => d.deserialize_bytes(idx),
            ArrayDeserializer::DictionaryU32I64(d) => d.deserialize_bytes(idx),
            ArrayDeserializer::DictionaryU64I32(d) => d.deserialize_bytes(idx),
            ArrayDeserializer::DictionaryU64I64(d) => d.deserialize_bytes(idx),
        }
    }
}

/// The field path this reader reports in error context.
pub open spec fn spec_reader_path(d: ArrayDeserializer) -> Seq<char> {
    match d {
        ArrayDeserializer::Null(p, _) => p@,
        ArrayDeserializer::Bool(d) => d.path@,
        ArrayDeserializer::I8(d) => d.path@,
        ArrayDeserializer::I16(d) => d.path@,
        ArrayDeserializer::I32(d) => d.path@,
        ArrayDeserializer::I64(d) => d.path@,
        ArrayDeserializer::U8(d) => d.path@,
        ArrayDeserializer::U16(d) => d.path@,
        ArrayDeserializer::U32(d) => d.path@,
        ArrayDeserializer::U64(d) => d.path@,
        ArrayDeserializer::Date32(d) => d.path@,
        ArrayDeserializer::Date64(d) => d.path@,
        ArrayDeserializer::Time32(d) => d.path@,
        ArrayDeserializer::Time64(d) => d.path@,
        ArrayDeserializer::Utf8(d) => d.path@,
        ArrayDeserializer::LargeUtf8(d) => d.path@,
        ArrayDeserializer::DictionaryI8I32(d) => d.path@,
        ArrayDeserializer::DictionaryI8I64(d) => d.path@,
        ArrayDeserializer::DictionaryI16I32(d) => d.path@,
        ArrayDeserializer::DictionaryI16I64(d) => d.path@,
        ArrayDeserializer::DictionaryI32I32(d) => d.path@,
        ArrayDeserializer::DictionaryI32I64(d) => d.path@,
        ArrayDeserializer::DictionaryI64I32(d) => d.path@,
        ArrayDeserializer::DictionaryI64I64(d) => d.path@,
        ArrayDeserializer::DictionaryU8I32(d) => d.path@,
        ArrayDeserializer::DictionaryU8I64(d) => d.path@,
        ArrayDeserializer::DictionaryU16I32(d) => d.path@,
        ArrayDeserializer::DictionaryU16I64(d) => d.path@,
        ArrayDeserializer::DictionaryU32I32(d) => d.path@,
        ArrayDeserializer::DictionaryU32I64(d) => d.path@,
        ArrayDeserializer::DictionaryU64I32(d) => d.path@,
        ArrayDeserializer::DictionaryU64I64(d) => d.path@,
    }
}

/// The physical type name this reader reports in error context.
pub open spec fn spec_reader_data_type(d: ArrayDeserializer) -> Seq<char> {
    match d {
        ArrayDeserializer::Null(_, _) => "Null"@,
        ArrayDeserializer::Bool(_) => "Boolean"@,
        ArrayDeserializer::I8(_) => "Int8"@,
        ArrayDeserializer::I16(_) => "Int16"@,
        ArrayDeserializer::I32(_) => "Int32"@,
        ArrayDeserializer::I64(_) => "Int64"@,
        ArrayDeserializer::U8(_) => "UInt8"@,
        ArrayDeserializer::U16(_) => "UInt16"@,
        ArrayDeserializer::U32(_) => "UInt32"@,
        ArrayDeserializer::U64(_) => "UInt64"@,
        ArrayDeserializer::Date32(_) => "Date32"@,
        ArrayDeserializer::Date64(_) => "Date64"@,
        ArrayDeserializer::Time32(_) => "Time32"@,
        ArrayDeserializer::Time64(_) => "Time64"@,
        ArrayDeserializer::Utf8(_) => "Utf8"@,
        ArrayDeserializer::LargeUtf8(_) => "LargeUtf8"@,
        ArrayDeserializer::DictionaryI8I32(_) => "Dictionary"@,
        ArrayDeserializer::DictionaryI8I64(_) => "Dictionary"@,
        ArrayDeserializer::DictionaryI16I32(_) => "Dictionary"@,
        ArrayDeserializer::DictionaryI16I64(_) => "Dictionary"@,
        ArrayDeserializer::DictionaryI32I32(_) => "Dictionary"@,
        ArrayDeserializer::DictionaryI32I64(_) => "Dictionary"@,
        ArrayDeserializer::DictionaryI64I32(_) => "Dictionary"@,
        ArrayDeserializer::DictionaryI64I64(_) => "Dictionary"@,
        ArrayDeserializer::DictionaryU8I32(_) => "Dictionary"@,
        ArrayDeserializer::DictionaryU8I64(_) => "Dictionary"@,
        ArrayDeserializer::DictionaryU16I32(_) => "Dictionary"@,
        ArrayDeserializer::DictionaryU16I64(_) => "Dictionary"@,
        ArrayDeserializer::DictionaryU32I32(_) => "Dictionary"@,
        ArrayDeserializer::DictionaryU32I64(_) => "Dictionary"@,
        ArrayDeserializer::DictionaryU64I32(_) => "Dictionary"@,
        ArrayDeserializer::DictionaryU64I64(_) => "Dictionary"@,
    }
}

impl ArrayDeserializer {
    /// Supplies this reader's error context — the field path it was built
    /// for and its physical type name — where the caller has not recorded
    /// one yet: context is attached lazily, only once an error actually
    /// surfaces.
    pub fn annotate(&self, annotations: &mut Vec<(String, String)>)
        ensures
            crate::context::spec_annotated(
                old(annotations)@,
                final(annotations)@,
                spec_reader_path(*self),
                spec_reader_data_type(*self),
            ),
    {
        match self {
            ArrayDeserializer::Null(p, _) => {
                crate::context::annotate_with(annotations, p.as_str(), "Null");
            },
            ArrayDeserializer::Bool(d) => d.annotate(annotations),
            ArrayDeserializer::I8(d) => d.annotate(annotations),
            ArrayDeserializer::I16(d) => d.annotate(annotations),
            ArrayDeserializer::I32(d) => d.annotate(annotations),
            ArrayDeserializer::I64(d) => d.annotate(annotations),
            ArrayDeserializer::U8(d) => d.annotate(annotations),
            ArrayDeserializer::U16(d) => d.annotate(annotations),
            ArrayDeserializer::U32(d) => d.annotate(annotations),
            ArrayDeserializer::U64(d) => d.annotate(annotations),
            ArrayDeserializer::Date32(d) => d.annotate(annotations),
            ArrayDeserializer::Date64(d) => d.annotate(annotations),
            ArrayDeserializer::Time32(d) => d.annotate(annotations),
            ArrayDeserializer::Time64(d) => d.annotate(annotations),
            ArrayDeserializer::Utf8(d) => d.annotate(annotations),
            ArrayDeserializer::LargeUtf8(d) => d.annotate(annotations),
            ArrayDeserializer::DictionaryI8I32(d) => d.annotate(annotations),
            ArrayDeserializer::DictionaryI8I64(d) => d.annotate(annotations),
            ArrayDeserializer::DictionaryI16I32(d) => d.annotate(annotations),
            ArrayDeserializer::DictionaryI16I64(d) => d.annotate(annotations),
            ArrayDeserializer::DictionaryI32I32(d) => d.annotate(annotations),
            ArrayDeserializer::DictionaryI32I64(d) => d.annotate(annotations),
            ArrayDeserializer::DictionaryI64I32(d) => d.annotate(annotations),
            ArrayDeserializer::DictionaryI64I64(d) => d.annotate(annotations),
            ArrayDeserializer::DictionaryU8I32(d) => d.annotate(annotations),
            ArrayDeserializer::DictionaryU8I64(d) => d.annotate(annotations),
            ArrayDeserializer::DictionaryU16I32(d) => d.annotate(annotations),
            ArrayDeserializer::DictionaryU16I64(d) => d.annotate(annotations),
            ArrayDeserializer::DictionaryU32I32(d) => d.annotate(annotations),
            ArrayDeserializer::DictionaryU32I64(d) => d.annotate(annotations),
            ArrayDeserializer::DictionaryU64I32(d) => d.annotate(annotations),
            ArrayDeserializer::DictionaryU64I64(d) => d.annotate(annotations),
        }
    }
}

/// The number of rows a view holds.
pub open spec fn spec_view_len(view: ArrayView) -> int {
    match view {
        ArrayView::Null(len) => len as int,
        ArrayView::Boolean(v) => v.spec_len(),
        ArrayView::Int8(v) => v.spec_len(),
        ArrayView::Int16(v) => v.spec_len(),
        ArrayView::Int32(v) => v.spec_len(),
        ArrayView::Int64(v) => v.spec_len(),
        ArrayView::UInt8(v) => v.spec_len(),
        ArrayView::UInt16(v) => v.spec_len(),
        ArrayView::UInt32(v) => v.spec_len(),
        ArrayView::UInt64(v) => v.spec_len(),
        ArrayView::Date32(v) => v.spec_len(),
        ArrayView::Date64(v) => v.spec_len(),
        ArrayView::Time32(_, v) => v.spec_len(),
        ArrayView::Time64(_, v) => v.spec_len(),
        ArrayView::Utf8(v) => v.spec_rows(),
        ArrayView::LargeUtf8(v) => v.spec_rows(),
        ArrayView::Dictionary(k, _) => match k {
            DictionaryKeysView::I8(v) => v.spec_len(),
            DictionaryKeysView::I16(v) => v.spec_len(),
            DictionaryKeysView::I32(v) => v.spec_len(),
            DictionaryKeysView::I64(v) => v.spec_len(),
            DictionaryKeysView::U8(v) => v.spec_len(),
            DictionaryKeysView::U16(v) => v.spec_len(),
            DictionaryKeysView::U32(v) => v.spec_len(),
            DictionaryKeysView::U64(v) => v.spec_len(),
        },
    }
}

/// The number of rows a view holds.
pub fn view_len(view: &ArrayView) -> (r: usize)
    requires
        view_wf(*view),
    ensures
        r == spec_view_len(*view),
{
    match view {
        ArrayView::Null(len) => *len,
        ArrayView::Boolean(v) => v.len,
        ArrayView::Int8(v) => v.len(),
        ArrayView::Int16(v) => v.len(),
        ArrayView::Int32(v) => v.len(),
        ArrayView::Int64(v) => v.len(),
        ArrayView::UInt8(v) => v.len(),
        ArrayView::UInt16(v) => v.len(),
        ArrayView::UInt32(v) => v.len(),
        ArrayView::UInt64(v) => v.len(),
        ArrayView::Date32(v) => v.len(),
        ArrayView::Date64(v) => v.len(),
        ArrayView::Time32(_, v) => v.len(),
        ArrayView::Time64(_, v) => v.len(),
        ArrayView::Utf8(v) => v.len(),
        ArrayView::LargeUtf8(v) => v.len(),
        ArrayView::Dictionary(k, _) => match k {
            DictionaryKeysView::I8(v) => v.len(),
            DictionaryKeysView::I16(v) => v.len(),
            DictionaryKeysView::I32(v) => v.len(),
            DictionaryKeysView::I64(v) => v.len(),
            DictionaryKeysView::U8(v) => v.len(),
            DictionaryKeysView::U16(v) => v.len(),
            DictionaryKeysView::U32(v) => v.len(),
            DictionaryKeysView::U64(v) => v.len(),
        },
    }
}

/// Pairs each field of a struct column with the reader for its child
/// view. Construction — not any per-row read — fails with a schema error
/// when the fields and views do not come in equal number or the views
/// disagree on their length; the length all views share is returned with
/// the readers.
pub fn build_struct_fields(fields: &Vec<crate::schema::GenericField>, views: Vec<ArrayView>) -> (r:
    Result<(Vec<(String, ArrayDeserializer)>, usize), Error>)
    requires
        forall|i: int| 0 <= i < views@.len() ==> view_wf(#[trigger] views@[i]),
    ensures
        r is Ok <==> (fields@.len() == views@.len() && (forall|i: int|
            0 <= i < views@.len() ==> spec_view_len(#[trigger] views@[i]) == spec_view_len(
                views@[0],
            ))),
        r matches Err(e) ==> e == Error::Schema,
        r matches Ok(pair) ==> {
            &&& pair.0@.len() == fields@.len()
            &&& (views@.len() == 0 ==> pair.1 == 0)
            &&& (views@.len() > 0 ==> pair.1 == spec_view_len(views@[0]))
            &&& forall|i: int|
                0 <= i < fields@.len() ==> (#[trigger] pair.0@[i]).0@ == fields@[i].name@
                    && (exists|p: String|
                    p@ == fields@[i].name@ && pair.0@[i].1 == spec_new_deserializer(
                        p,
                        views@[i],
                    )) && pair.0@[i].1.wf()
        },
{
    if fields.len() != views.len() {
        return Err(Error::Schema);
    }
    let len: usize = if views.len() > 0 {
        view_len(&views[0])
    } else {
        0
    };
    let ghost all_views = views@;
    let mut rest = views;
    let mut deserializers: Vec<(String, ArrayDeserializer)> = Vec::new();
    let mut i: usize = 0;
    while i < fields.len()
        invariant
            fields@.len() == all_views.len(),
            all_views == views@,
            rest@ == all_views.skip(i as int),
            i <= fields@.len(),
            deserializers@.len() == i,
            forall|k: int| 0 <= k < all_views.len() ==> view_wf(#[trigger] all_views[k]),
            all_views.len() > 0 ==> len == spec_view_len(all_views[0]),
            forall|k: int|
                0 <= k < i ==> spec_view_len(#[trigger] all_views[k]) == spec_view_len(
                    all_views[0],
                ),
            forall|k: int|
                0 <= k < i ==> (#[trigger] deserializers@[k]).0@ == fields@[k].name@
                    && (exists|p: String|
                    p@ == fields@[k].name@ && deserializers@[k].1 == spec_new_deserializer(
                        p,
                        all_views[k],
                    )) && deserializers@[k].1.wf(),
        decreases fields@.len() - i,
    {
        let view = rest.remove(0);
        proof {
            assert(view == all_views[i as int]);
            assert(rest@ =~= all_views.skip(i + 1));
        }
        if view_len(&view) != len {
            proof {
                assert(spec_view_len(all_views[i as int]) != spec_view_len(all_views[0]));
            }
            return Err(Error::Schema);
        }
        let name = crate::util::copy_string(&fields[i].name);
        let path = crate::util::copy_string(&fields[i].name);
        let ghost pstr = path;
        let ghost prev_deser = deserializers@;
        deserializers.push((name, ArrayDeserializer::new(path, view)));
        proof {
            assert forall|k: int|
                0 <= k < i + 1 implies ((#[trigger] deserializers@[k]).0@ == fields@[k].name@ && (
            exists|p: String|
                p@ == fields@[k].name@ && deserializers@[k].1 == spec_new_deserializer(
                    p,
                    all_views[k],
                )) && deserializers@[k].1.wf()) by {
                if k < i {
                    assert(deserializers@[k] == prev_deser[k]);
                    let p0 = choose|p: String|
                        p@ == fields@[k].name@ && prev_deser[k].1 == spec_new_deserializer(
                            p,
                            all_views[k],
                        );
                    assert(p0@ == fields@[k].name@ && deserializers@[k].1
                        == spec_new_deserializer(p0, all_views[k]));
                } else {
                    assert(pstr@ == fields@[i as int].name@ && deserializers@[i as int].1
                        == spec_new_deserializer(pstr, all_views[i as int]));
                }
            }
        }
        i += 1;
    }
    proof {
        assert(fields@.len() == all_views.len());
        assert(forall|k: int|
            0 <= k < all_views.len() ==> spec_view_len(#[trigger] all_views[k]) == spec_view_len(
                all_views[0],
            ));
    }
    Ok((deserializers, len))
}

/// One scalar value as the any-typed read hands it out: the physically
/// natural reading of the column.
#[derive(Debug, Clone, PartialEq)]
pub enum AnyValue {
    /// The reading of a null column's row.
    Unit,
    Bool(bool),
    I8(i8),
    I16(i16),
    I32(i32),
    I64(i64),
    U8(u8),
    U16(u16),
    U32(u32),
    U64(u64),
    Str(String),
}

impl ArrayDeserializer {
    /// Reads a non-null row as the column's physically natural kind:
    /// integers at their stored width, booleans and strings as
    /// themselves, dictionary rows resolved to their string, temporal
    /// rows as their raw integer narrowed to the width the calendar
    /// reading starts from.
    pub fn deserialize_any_some(&self, idx: usize) -> (r: Result<AnyValue, Error>)
        requires
            self.wf(),
        ensures
            match *self {
            ArrayDeserializer::Null(_, len) => if idx < len {
                r == Ok::<AnyValue, Error>(AnyValue::Unit)
            } else {
                r == Err::<AnyValue, Error>(Error::OutOfRange)
            },
            ArrayDeserializer::Bool(d) => match r {
                Ok(av) => av matches AnyValue::Bool(b) && d.view.spec_get_required(idx as int)
                    == Ok::<bool, Error>(b),
                Err(e) => d.view.spec_get_required(idx as int) == Err::<bool, Error>(e),
            },
            ArrayDeserializer::I8(d) => match r {
                Ok(av) => av matches AnyValue::I8(v) && spec_narrow(
                    d.view,
                    idx as int,
                    i8::MIN as int,
                    i8::MAX as int,
                ) == Ok::<int, Error>(v as int),
                Err(e) => spec_narrow(d.view, idx as int, i8::MIN as int, i8::MAX as int) == Err::<
                    int,
                    Error,
                >(e),
            },
            ArrayDeserializer::I16(d) => match r {
                Ok(av) => av matches AnyValue::I16(v) && spec_narrow(
                    d.view,
                    idx as int,
                    i16::MIN as int,
                    i16::MAX as int,
                ) == Ok::<int, Error>(v as int),
                Err(e) => spec_narrow(d.view, idx as int, i16::MIN as int, i16::MAX as int) == Err::<
                    int,
                    Error,
                >(e),
            },
            ArrayDeserializer::I32(d) => match r {
                Ok(av) => av matches AnyValue::I32(v) && spec_narrow(
                    d.view,
                    idx as int,
                    i32::MIN as int,
                    i32::MAX as int,
                ) == Ok::<int, Error>(v as int),
                Err(e) => spec_narrow(d.view, idx as int, i32::MIN as int, i32::MAX as int) == Err::<
                    int,
                    Error,
                >(e),
            },
            ArrayDeserializer::I64(d) => match r {
                Ok(av) => av matches AnyValue::I64(v) && spec_narrow(
                    d.view,
                    idx as int,
                    i64::MIN as int,
                    i64::MAX as int,
                ) == Ok::<int, Error>(v as int),
                Err(e) => spec_narrow(d.view, idx as int, i64::MIN as int, i64::MAX as int) == Err::<
                    int,
                    Error,
                >(e),
            },
            ArrayDeserializer::U8(d) => match r {
                Ok(av) => av matches AnyValue::U8(v) && spec_narrow(
                    d.view,
                    idx as int,
                    0,
                    u8::MAX as int,
                ) == Ok::<int, Error>(v as int),
                Err(e) => spec_narrow(d.view, idx as int, 0, u8::MAX as int) == Err::<
                    int,
                    Error,
                >(e),
            },
            ArrayDeserializer::U16(d) => match r {
                Ok(av) => av matches AnyValue::U16(v) && spec_narrow(
                    d.view,
                    idx as int,
                    0,
                    u16::MAX as int,
                ) == Ok::<int, Error>(v as int),
                Err(e) => spec_narrow(d.view, idx as int, 0, u16::MAX as int) == Err::<
                    int,
                    Error,
                >(e),
            },
            ArrayDeserializer::U32(d) => match r {
                Ok(av) => av matches AnyValue::U32(v) && spec_narrow(
                    d.view,
                    idx as int,
                    0,
                    u32::MAX as int,
                ) == Ok::<int, Error>(v as int),
                Err(e) => spec_narrow(d.view, idx as int, 0, u32::MAX as int) == Err::<
                    int,
                    Error,
                >(e),
            },
            ArrayDeserializer::U64(d) => match r {
                Ok(av) => av matches AnyValue::U64(v) && spec_narrow(
                    d.view,
                    idx as int,
                    0,
                    u64::MAX as int,
                ) == Ok::<int, Error>(v as int),
                Err(e) => spec_narrow(d.view, idx as int, 0, u64::MAX as int) == Err::<
                    int,
                    Error,
                >(e),
            },
            ArrayDeserializer::Date32(d) => match r {
                Ok(av) => av matches AnyValue::I32(v) && spec_narrow(
                    d.array,
                    idx as int,
                    i32::MIN as int,
                    i32::MAX as int,
                ) == Ok::<int, Error>(v as int),
                Err(e) => spec_narrow(d.array, idx as int, i32::MIN as int, i32::MAX as int)
                    == Err::<int, Error>(e),
            },
            ArrayDeserializer::Date64(d) => match r {
                Ok(av) => av matches AnyValue::I32(v) && spec_narrow(
                    d.array,
                    idx as int,
                    i32::MIN as int,
                    i32::MAX as int,
                ) == Ok::<int, Error>(v as int),
                Err(e) => spec_narrow(d.array, idx as int, i32::MIN as int, i32::MAX as int)
                    == Err::<int, Error>(e),
            },
            ArrayDeserializer::Time32(d) => match r {
                Ok(av) => av matches AnyValue::I32(v) && spec_narrow(
                    d.array,
                    idx as int,
                    i32::MIN as int,
                    i32::MAX as int,
                ) == Ok::<int, Error>(v as int),
                Err(e) => spec_narrow(d.array, idx as int, i32::MIN as int, i32::MAX as int)
                    == Err::<int, Error>(e),
            },
            ArrayDeserializer::Time64(d) => match r {
                Ok(av) => av matches AnyValue::I64(v) && spec_narrow(
                    d.array,
                    idx as int,
                    i64::MIN as int,
                    i64::MAX as int,
                ) == Ok::<int, Error>(v as int),
                Err(e) => spec_narrow(d.array, idx as int, i64::MIN as int, i64::MAX as int)
                    == Err::<int, Error>(e),
            },
            ArrayDeserializer::Utf8(d) => match r {
                Ok(av) => av matches AnyValue::Str(s) && spec_read_str(d.view, idx as int)
                    == Ok::<Seq<char>, Error>(s@),
                Err(e) => spec_read_str(d.view, idx as int) == Err::<Seq<char>, Error>(e),
            },
            ArrayDeserializer::LargeUtf8(d) => match r {
                Ok(av) => av matches AnyValue::Str(s) && spec_read_str(d.view, idx as int)
                    == Ok::<Seq<char>, Error>(s@),
                Err(e) => spec_read_str(d.view, idx as int) == Err::<Seq<char>, Error>(e),
            },
            ArrayDeserializer::DictionaryI8I32(d) => match r {
                Ok(av) => av matches AnyValue::Str(s) && spec_dict_str(
                    d.keys,
                    d.values,
                    idx as int,
                ) == Ok::<Seq<char>, Error>(s@),
                Err(e) => spec_dict_str(d.keys, d.values, idx as int) == Err::<
                    Seq<char>,
                    Error,
                >(e),
            },
            ArrayDeserializer::DictionaryI8I64(d) => match r {
                Ok(av) => av matches AnyValue::Str(s) && spec_dict_str(
                    d.keys,
                    d.values,
                    idx as int,
                ) == Ok::<Seq<char>, Error>(s@),
                Err(e) => spec_dict_str(d.keys, d.values, idx as int) == Err::<
                    Seq<char>,
                    Error,
                >(e),
            },
            ArrayDeserializer::DictionaryI16I32(d) => match r {
                Ok(av) => av matches AnyValue::Str(s) && spec_dict_str(
                    d.keys,
                    d.values,
                    idx as int,
                ) == Ok::<Seq<char>, Error>(s@),
                Err(e) => spec_dict_str(d.keys, d.values, idx as int) == Err::<
                    Seq<char>,
                    Error,
                >(e),
            },
            ArrayDeserializer::DictionaryI16I64(d) => match r {
                Ok(av) => av matches AnyValue::Str(s) && spec_dict_str(
                    d.keys,
                    d.values,
                    idx as int,
                ) == Ok::<Seq<char>, Error>(s@),
                Err(e) => spec_dict_str(d.keys, d.values, idx as int) == Err::<
                    Seq<char>,
                    Error,
                >(e),
            },
            ArrayDeserializer::DictionaryI32I32(d) => match r {
                Ok(av) => av matches AnyValue::Str(s) && spec_dict_str(
                    d.keys,
                    d.values,
                    idx as int,
                ) == Ok::<Seq<char>, Error>(s@),
                Err(e) => spec_dict_str(d.keys, d.values, idx as int) == Err::<
                    Seq<char>,
                    Error,
                >(e),
            },
            ArrayDeserializer::DictionaryI32I64(d) => match r {
                Ok(av) => av matches AnyValue::Str(s) && spec_dict_str(
                    d.keys,
                    d.values,
                    idx as int,
                ) == Ok::<Seq<char>, Error>(s@),
                Err(e) => spec_dict_str(d.keys, d.values, idx as int) == Err::<
                    Seq<char>,
                    Error,
                >(e),
            },
            ArrayDeserializer::DictionaryI64I32(d) => match r {
                Ok(av) => av matches AnyValue::Str(s) && spec_dict_str(
                    d.keys,
                    d.values,
                    idx as int,
                ) == Ok::<Seq<char>, Error>(s@),
                Err(e) => spec_dict_str(d.keys, d.values, idx as int) == Err::<
                    Seq<char>,
                    Error,
                >(e),
            },
            ArrayDeserializer::DictionaryI64I64(d) => match r {
                Ok(av) => av matches AnyValue::Str(s) && spec_dict_str(
                    d.keys,
                    d.values,
                    idx as int,
                ) == Ok::<Seq<char>, Error>(s@),
                Err(e) => spec_dict_str(d.keys, d.values, idx as int) == Err::<
                    Seq<char>,
                    Error,
                >(e),
            },
            ArrayDeserializer::DictionaryU8I32(d) => match r {
                Ok(av) => av matches AnyValue::Str(s) && spec_dict_str(
                    d.keys,
                    d.values,
                    idx as int,
                ) == Ok::<Seq<char>, Error>(s@),
                Err(e) => spec_dict_str(d.keys, d.values, idx as int) == Err::<
                    Seq<char>,
                    Error,
                >(e),
            },
            ArrayDeserializer::DictionaryU8I64(d) => match r {
                Ok(av) => av matches AnyValue::Str(s) && spec_dict_str(
                    d.keys,
                    d.values,
                    idx as int,
                ) == Ok::<Seq<char>, Error>(s@),
                Err(e) => spec_dict_str(d.keys, d.values, idx as int) == Err::<
                    Seq<char>,
                    Error,
                >(e),
            },
            ArrayDeserializer::DictionaryU16I32(d) => match r {
                Ok(av) => av matches AnyValue::Str(s) && spec_dict_str(
                    d.keys,
                    d.values,
                    idx as int,
                ) == Ok::<Seq<char>, Error>(s@),
                Err(e) => spec_dict_str(d.keys, d.values, idx as int) == Err::<
                    Seq<char>,
                    Error,
                >(e),
            },
            ArrayDeserializer::DictionaryU16I64(d) => match r {
                Ok(av) => av matches AnyValue::Str(s) && spec_dict_str(
                    d.keys,
                    d.values,
                    idx as int,
                ) == Ok::<Seq<char>, Error>(s@),
                Err(e) => spec_dict_str(d.keys, d.values, idx as int) == Err::<
                    Seq<char>,
                    Error,
                >(e),
            },
            ArrayDeserializer::DictionaryU32I32(d) => match r {
                Ok(av) => av matches AnyValue::Str(s) && spec_dict_str(
                    d.keys,
                    d.values,
                    idx as int,
                ) == Ok::<Seq<char>, Error>(s@),
                Err(e) => spec_dict_str(d.keys, d.values, idx as int) == Err::<
                    Seq<char>,
                    Error,
                >(e),
            },
            ArrayDeserializer::DictionaryU32I64(d) => match r {
                Ok(av) => av matches AnyValue::Str(s) && spec_dict_str(
                    d.keys,
                    d.values,
                    idx as int,
                ) == Ok::<Seq<char>, Error>(s@),
                Err(e) => spec_dict_str(d.keys, d.values, idx as int) == Err::<
                    Seq<char>,
                    Error,
                >(e),
            },
            ArrayDeserializer::DictionaryU64I32(d) => match r {
                Ok(av) => av matches AnyValue::Str(s) && spec_dict_str(
                    d.keys,
                    d.values,
                    idx as int,
                ) == Ok::<Seq<char>, Error>(s@),
                Err(e) => spec_dict_str(d.keys, d.values, idx as int) == Err::<
                    Seq<char>,
                    Error,
                >(e),
            },
            ArrayDeserializer::DictionaryU64I64(d) => match r {
                Ok(av) => av matches AnyValue::Str(s) && spec_dict_str(
                    d.keys,
                    d.values,
                    idx as int,
                ) == Ok::<Seq<char>, Error>(s@),
                Err(e) => spec_dict_str(d.keys, d.values, idx as int) == Err::<
                    Seq<char>,
                    Error,
                >(e),
            },
            },
    {
        match self {
            ArrayDeserializer::Null(_, len) => {
                if idx < *len {
                    Ok(AnyValue::Unit)
                } else {
                    Err(Error::OutOfRange)
                }
            },
            ArrayDeserializer::Bool(d) => Ok(AnyValue::Bool(d.deserialize_bool(idx)?)),
            ArrayDeserializer::I8(d) => Ok(AnyValue::I8(d.deserialize_i8(idx)?)),
            ArrayDeserializer::I16(d) => Ok(AnyValue::I16(d.deserialize_i16(idx)?)),
            ArrayDeserializer::I32(d) => Ok(AnyValue::I32(d.deserialize_i32(idx)?)),
            ArrayDeserializer::I64(d) => Ok(AnyValue::I64(d.deserialize_i64(idx)?)),
            ArrayDeserializer::U8(d) => Ok(AnyValue::U8(d.deserialize_u8(idx)?)),
            ArrayDeserializer::U16(d) => Ok(AnyValue::U16(d.deserialize_u16(idx)?)),
            ArrayDeserializer::U32(d) => Ok(AnyValue::U32(d.deserialize_u32(idx)?)),
            ArrayDeserializer::U64(d) => Ok(AnyValue::U64(d.deserialize_u64(idx)?)),
            ArrayDeserializer::Date32(d) => Ok(AnyValue::I32(d.deserialize_i32(idx)?)),
            ArrayDeserializer::Date64(d) => Ok(AnyValue::I32(d.deserialize_i32(idx)?)),
            ArrayDeserializer::Time32(d) => Ok(AnyValue::I32(d.deserialize_i32(idx)?)),
            ArrayDeserializer::Time64(d) => Ok(AnyValue::I64(d.deserialize_i64(idx)?)),
            ArrayDeserializer::Utf8(d) => Ok(AnyValue::Str(d.deserialize_str(idx)?)),
            ArrayDeserializer::LargeUtf8(d) => Ok(AnyValue::Str(d.deserialize_str(idx)?)),
            ArrayDeserializer::DictionaryI8I32(d) => Ok(AnyValue::Str(d.deserialize_str(idx)?)),
            ArrayDeserializer::DictionaryI8I64(d) => Ok(AnyValue::Str(d.deserialize_str(idx)?)),
            ArrayDeserializer::DictionaryI16I32(d) => Ok(AnyValue::Str(d.deserialize_str(idx)?)),
            ArrayDeserializer::DictionaryI16I64(d) => Ok(AnyValue::Str(d.deserialize_str(idx)?)),
            ArrayDeserializer::DictionaryI32I32(d) => Ok(AnyValue::Str(d.deserialize_str(idx)?)),
            ArrayDeserializer::DictionaryI32I64(d) => Ok(AnyValue::Str(d.deserialize_str(idx)?)),
            ArrayDeserializer::DictionaryI64I32(d) => Ok(AnyValue::Str(d.deserialize_str(idx)?)),
            ArrayDeserializer::DictionaryI64I64(d) => Ok(AnyValue::Str(d.deserialize_str(idx)?)),
            ArrayDeserializer::DictionaryU8I32(d) => Ok(AnyValue::Str(d.deserialize_str(idx)?)),
            ArrayDeserializer::DictionaryU8I64(d) => Ok(AnyValue::Str(d.deserialize_str(idx)?)),
            ArrayDeserializer::DictionaryU16I32(d) => Ok(AnyValue::Str(d.deserialize_str(idx)?)),
            ArrayDeserializer::DictionaryU16I64(d) => Ok(AnyValue::Str(d.deserialize_str(idx)?)),
            ArrayDeserializer::DictionaryU32I32(d) => Ok(AnyValue::Str(d.deserialize_str(idx)?)),
            ArrayDeserializer::DictionaryU32I64(d) => Ok(AnyValue::Str(d.deserialize_str(idx)?)),
            ArrayDeserializer::DictionaryU64I32(d) => Ok(AnyValue::Str(d.deserialize_str(idx)?)),
            ArrayDeserializer::DictionaryU64I64(d) => Ok(AnyValue::Str(d.deserialize_str(idx)?)),
        }
    }
}

} // verus!
