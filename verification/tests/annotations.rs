use serde_arrow::array_deserializer::{AnyValue, ArrayDeserializer};
use serde_arrow::integer_deserializer::IntegerDeserializer;
use serde_arrow::utf8_builder::Utf8Builder;
use serde_arrow::views::{ArrayView, PrimitiveView};
use serde_arrow::Error;

#[test]
fn annotate_supplies_field_path_and_data_type() {
    let view = PrimitiveView { values: vec![1i64], validity: None };
    let d = IntegerDeserializer::new("$.count".to_string(), view);
    let mut annotations: Vec<(String, String)> = Vec::new();
    d.annotate(&mut annotations);
    assert_eq!(
        annotations,
        vec![
            ("field".to_string(), "$.count".to_string()),
            ("data_type".to_string(), "Int64".to_string()),
        ]
    );
}

#[test]
fn annotate_is_set_if_absent() {
    let view = PrimitiveView { values: vec![1u8], validity: None };
    let d = IntegerDeserializer::new("$.b".to_string(), view);
    // The innermost report wins; outer layers only fill gaps.
    let mut annotations = vec![("field".to_string(), "$.a".to_string())];
    d.annotate(&mut annotations);
    assert_eq!(
        annotations,
        vec![
            ("field".to_string(), "$.a".to_string()),
            ("data_type".to_string(), "UInt8".to_string()),
        ]
    );
}

#[test]
fn dispatch_annotate_reports_the_column_kind() {
    let mut b: Utf8Builder<i32> = Utf8Builder::new(false);
    b.serialize_str("x").unwrap();
    let d = ArrayDeserializer::new("$.name".to_string(), ArrayView::Utf8(b.build_array()));
    let mut annotations: Vec<(String, String)> = Vec::new();
    d.annotate(&mut annotations);
    assert_eq!(
        annotations,
        vec![
            ("field".to_string(), "$.name".to_string()),
            ("data_type".to_string(), "Utf8".to_string()),
        ]
    );
}

#[test]
fn any_typed_reads_use_the_natural_kind() {
    let view = PrimitiveView { values: vec![300i64], validity: None };
    let d = ArrayDeserializer::new("$".to_string(), ArrayView::Int64(view));
    assert_eq!(d.deserialize_any_some(0), Ok(AnyValue::I64(300)));

    let mut b: Utf8Builder<i32> = Utf8Builder::new(false);
    b.serialize_str("hi").unwrap();
    let d = ArrayDeserializer::new("$".to_string(), ArrayView::Utf8(b.build_array()));
    assert_eq!(d.deserialize_any_some(0), Ok(AnyValue::Str("hi".to_string())));

    let d = ArrayDeserializer::new("$".to_string(), ArrayView::Null(1));
    assert_eq!(d.deserialize_any_some(0), Ok(AnyValue::Unit));
    assert_eq!(d.deserialize_any_some(1), Err(Error::OutOfRange));
}
