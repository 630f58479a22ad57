use serde_arrow::array::{Array, TimeUnit};
use serde_arrow::array_deserializer::ArrayDeserializer;
use serde_arrow::builder::{configure, Configuration, GenericArrayBuilder, GenericArraysBuilder};
use serde_arrow::event::Event;
use serde_arrow::schema::{GenericDataType, GenericField};
use serde_arrow::views::ArrayView;
use serde_arrow::Error;

fn two_record_fields() -> Vec<GenericField> {
    vec![
        GenericField::new("a".to_string(), GenericDataType::I32, false),
        GenericField::new("b".to_string(), GenericDataType::Utf8, true),
    ]
}

#[test]
fn two_records_with_a_null_string() {
    // [{"a": 1, "b": "x"}, {"a": 2, "b": null}] against
    // {a: Int32 not-null, b: Utf8 nullable}.
    let mut builder = GenericArraysBuilder::new(two_record_fields()).unwrap();
    builder.push(vec![Event::I32(1), Event::Str("x".to_string())]).unwrap();
    builder.push(vec![Event::I32(2), Event::Null]).unwrap();
    let arrays = builder.build_arrays().unwrap();
    assert_eq!(arrays.len(), 2);

    match &arrays[0] {
        Array::Int32(arr) => {
            assert_eq!(arr.values, vec![1, 2]);
            assert_eq!(arr.validity, None);
        },
        other => panic!("unexpected array for a: {:?}", other),
    }

    let b = match arrays.into_iter().nth(1).unwrap() {
        Array::Utf8(arr) => arr,
        other => panic!("unexpected array for b: {:?}", other),
    };
    // child "b": validity [true, false], offsets [0, 1, 1]
    assert_eq!(b.validity, Some(vec![0b01u8]));
    assert_eq!(b.offsets, vec![0, 1, 1]);
    assert_eq!(b.data, b"x".to_vec());

    // deserializing row 1's "b" yields a null
    let d = ArrayDeserializer::new("b".to_string(), ArrayView::Utf8(b));
    assert_eq!(d.is_some(0), Ok(true));
    assert_eq!(d.is_some(1), Ok(false));
    assert_eq!(d.deserialize_str(0), Ok("x".to_string()));
}

#[test]
fn generic_array_builder_strips_an_outer_sequence() {
    let field = GenericField::new("root".to_string(), GenericDataType::U16, false);
    let mut builder = GenericArrayBuilder::new(field).unwrap();
    builder
        .extend(vec![
            Event::StartSequence,
            Event::Item,
            Event::U16(10),
            Event::Item,
            Event::U16(20),
            Event::EndSequence,
        ])
        .unwrap();
    match builder.build_array().unwrap() {
        Array::UInt16(arr) => assert_eq!(arr.values, vec![10, 20]),
        other => panic!("unexpected array: {:?}", other),
    }
}

#[test]
fn wrong_event_for_column_kind_is_an_event_state_error() {
    let field = GenericField::new("n".to_string(), GenericDataType::I32, false);
    let mut builder = GenericArrayBuilder::new(field).unwrap();
    assert_eq!(builder.push(Event::Str("nope".to_string())), Err(Error::EventState));
    assert_eq!(builder.push(Event::I64(1)), Err(Error::EventState));
    assert_eq!(builder.push(Event::I32(1)), Ok(()));
}

#[test]
fn unsupported_field_type_fails_construction() {
    let field = GenericField::new("f".to_string(), GenericDataType::F64, false);
    assert!(matches!(GenericArrayBuilder::new(field), Err(Error::Schema)));
    let field = GenericField::new("s".to_string(), GenericDataType::Struct, false);
    assert!(matches!(GenericArrayBuilder::new(field), Err(Error::Schema)));
}

#[test]
fn dictionary_field_resolves_its_children() {
    let field = GenericField::new("d".to_string(), GenericDataType::Dictionary, false)
        .with_child(GenericField::new("key".to_string(), GenericDataType::U32, false))
        .with_child(GenericField::new("value".to_string(), GenericDataType::Utf8, false));
    let mut builder = GenericArrayBuilder::new(field).unwrap();
    builder.push(Event::Str("v".to_string())).unwrap();
    match builder.build_array().unwrap() {
        Array::Dictionary(_) => {},
        other => panic!("unexpected array: {:?}", other),
    }

    // A dictionary keyed by strings is not a supported pairing.
    let bad = GenericField::new("d".to_string(), GenericDataType::Dictionary, false)
        .with_child(GenericField::new("key".to_string(), GenericDataType::Utf8, false))
        .with_child(GenericField::new("value".to_string(), GenericDataType::Utf8, false));
    assert!(matches!(GenericArrayBuilder::new(bad), Err(Error::Schema)));
}

#[test]
fn row_of_wrong_width_is_a_schema_error() {
    let mut builder = GenericArraysBuilder::new(two_record_fields()).unwrap();
    assert_eq!(builder.push(vec![Event::I32(1)]), Err(Error::Schema));
}

#[test]
fn extend_rejects_a_stream_without_outer_framing() {
    let field = GenericField::new("n".to_string(), GenericDataType::I32, false);
    let mut builder = GenericArrayBuilder::new(field).unwrap();
    // A bare value without the outer sequence is invalid for the stripper.
    assert_eq!(builder.extend(vec![Event::I32(1)]), Err(Error::EventState));
}

#[test]
fn temporal_columns_store_raw_integers() {
    let field = GenericField::new("d".to_string(), GenericDataType::Date32, true);
    let mut builder = GenericArrayBuilder::new(field).unwrap();
    builder.push(Event::I32(18628)).unwrap();
    builder.push(Event::Null).unwrap();
    match builder.build_array().unwrap() {
        Array::Date32(arr) => {
            assert_eq!(arr.values, vec![18628, 0]);
            assert_eq!(arr.validity, Some(vec![0b01u8]));
        },
        other => panic!("unexpected array: {:?}", other),
    }

    let field = GenericField::new(
        "t".to_string(),
        GenericDataType::Time64(TimeUnit::Microsecond),
        false,
    );
    let mut builder = GenericArrayBuilder::new(field).unwrap();
    builder.push(Event::I64(1_000_000)).unwrap();
    match builder.build_array().unwrap() {
        Array::Time64(unit, arr) => {
            assert_eq!(unit, TimeUnit::Microsecond);
            assert_eq!(arr.values, vec![1_000_000]);
        },
        other => panic!("unexpected array: {:?}", other),
    }
}

#[test]
fn configure_updates_the_default_settings() {
    let cfg = configure(|mut c: Configuration| {
        c.serialize_with_bytecode = true;
        c
    });
    assert!(cfg.serialize_with_bytecode);
    assert!(!Configuration::default().serialize_with_bytecode);
}

#[test]
fn a_bare_present_marker_is_not_a_row() {
    let mut builder = GenericArraysBuilder::new(two_record_fields()).unwrap();
    assert_eq!(
        builder.push(vec![Event::Present, Event::Null]),
        Err(Error::EventState)
    );
    // Nothing was written: a full row still lands cleanly.
    builder.push(vec![Event::I32(1), Event::Null]).unwrap();
    let arrays = builder.build_arrays().unwrap();
    match &arrays[0] {
        Array::Int32(arr) => assert_eq!(arr.values, vec![1]),
        other => panic!("unexpected array: {:?}", other),
    }
}

#[test]
fn built_arrays_share_one_length() {
    let mut builder = GenericArraysBuilder::new(two_record_fields()).unwrap();
    builder.push(vec![Event::I32(1), Event::Str("x".to_string())]).unwrap();
    builder.push(vec![Event::I32(2), Event::Null]).unwrap();
    let arrays = builder.build_arrays().unwrap();
    let lens: Vec<usize> = arrays
        .iter()
        .map(|a| match a {
            Array::Int32(arr) => arr.values.len(),
            Array::Utf8(arr) => arr.offsets.len() - 1,
            other => panic!("unexpected array: {:?}", other),
        })
        .collect();
    assert_eq!(lens, vec![2, 2]);
}

#[test]
fn malformed_extend_stream_writes_nothing() {
    let field = GenericField::new("n".to_string(), GenericDataType::U8, false);
    let mut builder = GenericArrayBuilder::new(field).unwrap();
    // Valid framing up to a point, then an end marker that closes nothing.
    assert_eq!(
        builder.extend(vec![
            Event::StartSequence,
            Event::Item,
            Event::U8(1),
            Event::EndStruct,
            Event::EndSequence,
        ]),
        Err(Error::EventState)
    );
    // The whole stream was refused before anything was written.
    match builder.build_array().unwrap() {
        Array::UInt8(arr) => assert!(arr.values.is_empty()),
        other => panic!("unexpected array: {:?}", other),
    }
}
