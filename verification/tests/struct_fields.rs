use serde_arrow::array_deserializer::build_struct_fields;
use serde_arrow::bits::BitsWithOffset;
use serde_arrow::event::Event;
use serde_arrow::primitive_builder::{BoolBuilder, PrimitiveBuilder};
use serde_arrow::schema::{GenericDataType, GenericField};
use serde_arrow::sink::{DebugSink, EventRecorder, EventSink};
use serde_arrow::views::{ArrayView, BoolView, PrimitiveView};
use serde_arrow::Error;

fn int_view(values: Vec<i32>) -> ArrayView {
    ArrayView::Int32(PrimitiveView { values, validity: None })
}

#[test]
fn struct_fields_pair_names_with_readers() {
    let fields = vec![
        GenericField::new("a".to_string(), GenericDataType::I32, false),
        GenericField::new("b".to_string(), GenericDataType::I32, false),
    ];
    let (pairs, len) = build_struct_fields(&fields, vec![int_view(vec![1, 2]), int_view(vec![3, 4])])
        .unwrap();
    assert_eq!(len, 2);
    assert_eq!(pairs.len(), 2);
    assert_eq!(pairs[0].0, "a");
    assert_eq!(pairs[1].0, "b");
    assert_eq!(pairs[1].1.deserialize_i32(1), Ok(4));
}

#[test]
fn struct_fields_reject_mismatched_counts_and_lengths() {
    let fields = vec![GenericField::new("a".to_string(), GenericDataType::I32, false)];
    assert!(matches!(
        build_struct_fields(&fields, vec![]),
        Err(Error::Schema)
    ));
    let fields = vec![
        GenericField::new("a".to_string(), GenericDataType::I32, false),
        GenericField::new("b".to_string(), GenericDataType::I32, false),
    ];
    assert!(matches!(
        build_struct_fields(&fields, vec![int_view(vec![1, 2]), int_view(vec![3])]),
        Err(Error::Schema)
    ));
}

#[test]
fn bool_columns_round_trip() {
    let mut b = BoolBuilder::new(true);
    b.serialize_value(true).unwrap();
    b.serialize_none().unwrap();
    b.serialize_value(false).unwrap();
    let arr = b.build_array();
    assert_eq!(arr.len, 3);
    let view = arr.into_view();
    assert_eq!(view.is_some(0), Ok(true));
    assert_eq!(view.is_some(1), Ok(false));
    assert_eq!(view.get_required(0), Ok(true));
    assert_eq!(view.get_required(2), Ok(false));
    assert_eq!(view.get_required(1), Err(Error::TypeMismatch));
    assert_eq!(view.is_some(3), Err(Error::OutOfRange));
}

#[test]
fn bool_dispatch_reads_and_rejects() {
    let mut b = BoolBuilder::new(false);
    b.serialize_value(true).unwrap();
    let d = serde_arrow::array_deserializer::ArrayDeserializer::new("$".to_string(), ArrayView::Boolean(
        b.build_array().into_view(),
    ));
    assert_eq!(d.deserialize_bool(0), Ok(true));
    assert_eq!(d.deserialize_i32(0), Err(Error::TypeMismatch));
}

#[test]
fn integer_columns_answer_bool_reads_with_a_value_check() {
    let mut b: PrimitiveBuilder<i32> = PrimitiveBuilder::new(false);
    b.serialize_value(1).unwrap();
    b.serialize_value(5).unwrap();
    let d = serde_arrow::array_deserializer::ArrayDeserializer::new("$".to_string(), ArrayView::Int32(
        b.build_array().into_view(),
    ));
    assert_eq!(d.deserialize_bool(0), Ok(true));
    // The overflow error names the offending value.
    assert_eq!(d.deserialize_bool(1), Err(Error::Overflow(5)));
}

#[test]
fn dictionary_view_dispatches_to_a_typed_reader() {
    let keys = PrimitiveView { values: vec![1u8, 0], validity: None };
    let values = serde_arrow::array::Utf8Array::<i32> {
        offsets: vec![0, 1, 2],
        data: b"ab".to_vec(),
        validity: None,
    };
    let d = serde_arrow::array_deserializer::ArrayDeserializer::new("$".to_string(), ArrayView::Dictionary(
        serde_arrow::views::DictionaryKeysView::U8(keys),
        serde_arrow::views::DictionaryValuesView::Utf8(values),
    ));
    assert_eq!(d.deserialize_str(0), Ok("b".to_string()));
    assert_eq!(d.deserialize_str(1), Ok("a".to_string()));
    assert_eq!(d.deserialize_u8(0), Err(Error::TypeMismatch));
}

#[test]
fn null_column_rows_are_absent() {
    let d = serde_arrow::array_deserializer::ArrayDeserializer::new("n".to_string(), ArrayView::Null(2));
    assert_eq!(d.is_some(0), Ok(false));
    assert_eq!(d.is_some(2), Err(Error::OutOfRange));
    assert_eq!(d.deserialize_i32(0), Err(Error::TypeMismatch));
}

#[test]
fn debug_sink_passes_events_through() {
    let mut sink = DebugSink::new(EventRecorder::new());
    sink.accept(Event::Bool(true)).unwrap();
    sink.accept_u8(3).unwrap();
    let events = sink.into_inner().into_inner();
    assert_eq!(events, vec![Event::Bool(true), Event::U8(3)]);
}

#[test]
fn bool_view_honours_bit_offsets() {
    let view = BoolView {
        len: 2,
        values: BitsWithOffset { data: vec![0b10u8], offset: 1 },
        validity: None,
    };
    assert_eq!(view.get_required(0), Ok(true));
    assert_eq!(view.get_required(1), Ok(false));
}
