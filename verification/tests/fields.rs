use serde_arrow::bool8_field::Bool8Field;
use serde_arrow::schema::GenericDataType;

#[test]
fn bool8_field_carries_the_extension_metadata() {
    let field = Bool8Field::new("hello");
    let field = field.to_field();
    assert_eq!(field.name, "hello");
    assert_eq!(field.data_type, GenericDataType::I8);
    assert!(!field.nullable);
    assert_eq!(field.metadata.len(), 2);
    assert_eq!(
        field.metadata[0],
        ("ARROW:extension:name".to_string(), "arrow.bool8".to_string())
    );
    assert_eq!(
        field.metadata[1],
        ("ARROW:extension:metadata".to_string(), String::new())
    );
}

#[test]
fn bool8_field_nullability_is_settable() {
    let field = Bool8Field::new("flag").nullable(true);
    let field = field.to_field();
    assert!(field.nullable);
    assert_eq!(field.name, "flag");
}
