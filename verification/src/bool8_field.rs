use vstd::prelude::*;
use crate::schema::GenericDataType;

verus! {

/// A named column description at the columnar-format boundary: logical
/// type, nullability, and extension metadata as ordered key/value pairs.
#[derive(Debug)]
pub struct Field {
    pub name: String,
    pub data_type: GenericDataType,
    pub nullable: bool,
    pub metadata: Vec<(String, String)>,
}

/// A helper to construct fields with the Bool8 extension type: a boolean
/// column stored as one signed byte per row, tagged through the
/// extension metadata.
#[derive(Debug)]
pub struct Bool8Field {
    pub name: String,
    pub nullable: bool,
}

impl Bool8Field {
    /// Starts a non-nullable field of the given name.
    pub fn new(name: &str) -> (r: Self)
        ensures
            r.name@ == name@,
            !r.nullable,
    {
        Bool8Field { name: name.to_owned(), nullable: false }
    }

    /// Sets the nullability of the field.
    pub fn nullable(self, value: bool) -> (r: Self)
        ensures
            r.name == self.name,
            r.nullable == value,
    {
        Bool8Field { name: self.name, nullable: value }
    }

    /// The field this helper stands for: an 8-bit integer column whose
    /// extension name marks it as boolean-valued, with empty extension
    /// metadata.
    pub fn to_field(&self) -> (r: Field)
        ensures
            r.name@ == self.name@,
            r.data_type == GenericDataType::I8,
            r.nullable == self.nullable,
            r.metadata@.len() == 2,
            r.metadata@[0].0@ == "ARROW:extension:name"@,
            r.metadata@[0].1@ == "arrow.bool8"@,
            r.metadata@[1].0@ == "ARROW:extension:metadata"@,
            r.metadata@[1].1@ == ""@,
    {
        let mut metadata: Vec<(String, String)> = Vec::new();
        metadata.push(("ARROW:extension:name".to_owned(), "arrow.bool8".to_owned()));
        metadata.push(("ARROW:extension:metadata".to_owned(), "".to_owned()));
        Field {
            name: crate::util::copy_string(&self.name),
            data_type: GenericDataType::I8,
            nullable: self.nullable,
            metadata,
        }
    }
}

} // verus!
