use vstd::prelude::*;
use crate::Error;
use crate::array::TimeUnit;
use crate::dictionary_builder::DictionaryKeyKind;

verus! {

/// The logical data type of one column.
#[derive(Debug, Clone, Copy, PartialEq, Eq, Structural)]
pub enum GenericDataType {
    Null,
    Bool,
    I8,
    I16,
    I32,
    I64,
    U8,
    U16,
    U32,
    U64,
    F16,
    F32,
    F64,
    Utf8,
    LargeUtf8,
    Date32,
    Date64,
    Time32(TimeUnit),
    Time64(TimeUnit),
    Struct,
    List,
    LargeList,
    Mapping,
    Union,
    Dictionary,
}

/// Describes one logical column: its name, logical type, nullability and
/// ordered child fields (a dictionary has exactly two — key, then value).
#[derive(Debug)]
pub struct GenericField {
    pub name: String,
    pub data_type: GenericDataType,
    pub nullable: bool,
    pub children: Vec<GenericField>,
}

impl GenericField {
    pub fn new(name: String, data_type: GenericDataType, nullable: bool) -> (r: Self)
        ensures
            r.name == name,
            r.data_type == data_type,
            r.nullable == nullable,
            r.children@.len() == 0,
    {
        GenericField { name, data_type, nullable, children: Vec::new() }
    }

    pub fn with_child(self, child: GenericField) -> (r: Self)
        ensures
            r.name == self.name,
            r.data_type == self.data_type,
            r.nullable == self.nullable,
            r.children@ == self.children@.push(child),
    {
        let mut s = self;
        s.children.push(child);
        s
    }
}

/// The supported pairing of a dictionary field's two children: an
/// integer key type and a string value type. Any other pairing is a
/// schema error.
pub open spec fn spec_dictionary_kind(key: GenericDataType, value: GenericDataType) -> Result<
    (DictionaryKeyKind, bool),
    Error,
> {
    let large = value is LargeUtf8;
    if !(value is Utf8 || value is LargeUtf8) {
        Err(Error::Schema)
    } else {
        match key {
            GenericDataType::U8 => Ok((DictionaryKeyKind::U8, large)),
            GenericDataType::U16 => Ok((DictionaryKeyKind::U16, large)),
            GenericDataType::U32 => Ok((DictionaryKeyKind::U32, large)),
            GenericDataType::U64 => Ok((DictionaryKeyKind::U64, large)),
            GenericDataType::I8 => Ok((DictionaryKeyKind::I8, large)),
            GenericDataType::I16 => Ok((DictionaryKeyKind::I16, large)),
            GenericDataType::I32 => Ok((DictionaryKeyKind::I32, large)),
            GenericDataType::I64 => Ok((DictionaryKeyKind::I64, large)),
            _ => Err(Error::Schema),
        }
    }
}

/// Resolves a dictionary field's key and value child types to one of the
/// sixteen supported combinations — eight integer key widths times two
/// string offset widths; the flag says whether the value column uses
/// 64-bit offsets. Any other pairing is a schema error.
pub fn select_dictionary_kind(key: GenericDataType, value: GenericDataType) -> (r: Result<
    (DictionaryKeyKind, bool),
    Error,
>)
    ensures
        r == spec_dictionary_kind(key, value),
{
    let large = matches!(value, GenericDataType::LargeUtf8);
    if !(matches!(value, GenericDataType::Utf8) || large) {
        return Err(Error::Schema);
    }
    match key {
        GenericDataType::U8 => Ok((DictionaryKeyKind::U8, large)),
        GenericDataType::U16 => Ok((DictionaryKeyKind::U16, large)),
        GenericDataType::U32 => Ok((DictionaryKeyKind::U32, large)),
        GenericDataType::U64 => Ok((DictionaryKeyKind::U64, large)),
        GenericDataType::I8 => Ok((DictionaryKeyKind::I8, large)),
        GenericDataType::I16 => Ok((DictionaryKeyKind::I16, large)),
        GenericDataType::I32 => Ok((DictionaryKeyKind::I32, large)),
        GenericDataType::I64 => Ok((DictionaryKeyKind::I64, large)),
        _ => Err(Error::Schema),
    }
}

} // verus!
