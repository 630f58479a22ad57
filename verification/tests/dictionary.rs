use serde_arrow::array::{DictionaryKeys, Utf8Array};
use serde_arrow::dictionary_builder::{DictionaryKeyKind, DictionaryUtf8Builder};
use serde_arrow::dictionary_deserializer::DictionaryDeserializer;
use serde_arrow::views::PrimitiveView;
use serde_arrow::Error;

#[test]
fn repeated_values_reuse_their_key() {
    let mut b: DictionaryUtf8Builder<i32> = DictionaryUtf8Builder::new(
        DictionaryKeyKind::U32,
        false,
    );
    b.serialize_str("red").unwrap();
    b.serialize_str("blue").unwrap();
    b.serialize_str("red").unwrap();
    b.serialize_str("blue").unwrap();
    b.serialize_str("green").unwrap();
    assert_eq!(b.keys, vec![0, 1, 0, 1, 2]);
    let (keys, values) = b.build_array();
    match keys {
        DictionaryKeys::U32(arr) => assert_eq!(arr.values, vec![0u32, 1, 0, 1, 2]),
        other => panic!("unexpected key width: {:?}", other),
    }
    assert_eq!(values.offsets, vec![0, 3, 7, 12]);
    assert_eq!(values.data, b"redbluegreen".to_vec());
}

#[test]
fn key_mapping_survives_build_array() {
    let mut b: DictionaryUtf8Builder<i32> = DictionaryUtf8Builder::new(
        DictionaryKeyKind::U8,
        false,
    );
    b.serialize_str("a").unwrap();
    b.serialize_str("b").unwrap();
    let _ = b.build_array();
    // The next chunk still maps "a" to key 0 and knows both values.
    b.serialize_str("b").unwrap();
    b.serialize_str("a").unwrap();
    assert_eq!(b.keys, vec![1, 0]);
    let (keys, values) = b.build_array();
    match keys {
        DictionaryKeys::U8(arr) => assert_eq!(arr.values, vec![1u8, 0]),
        other => panic!("unexpected key width: {:?}", other),
    }
    assert_eq!(values.data, b"ab".to_vec());
}

#[test]
fn key_space_exhaustion_is_an_overflow_error() {
    let mut b: DictionaryUtf8Builder<i32> = DictionaryUtf8Builder::new(
        DictionaryKeyKind::I8,
        false,
    );
    for i in 0..128 {
        b.serialize_str(&format!("v{}", i)).unwrap();
    }
    // An i8 key column holds at most 128 distinct values (keys 0..=127).
    // The error names the first key past the i8 key space.
    assert_eq!(b.serialize_str("one too many"), Err(Error::Overflow(128)));
    // A value already in the table still gets its key.
    assert_eq!(b.serialize_str("v5"), Ok(()));
}

#[test]
fn nullable_dictionary_tracks_validity() {
    let mut b: DictionaryUtf8Builder<i64> = DictionaryUtf8Builder::new(
        DictionaryKeyKind::U16,
        true,
    );
    b.serialize_str("x").unwrap();
    b.serialize_none().unwrap();
    let (keys, _values) = b.build_array();
    match keys {
        DictionaryKeys::U16(arr) => {
            assert_eq!(arr.values, vec![0u16, 0]);
            assert_eq!(arr.validity, Some(vec![0b01u8]));
        },
        other => panic!("unexpected key width: {:?}", other),
    }
}

#[test]
fn dictionary_rows_resolve_through_their_keys() {
    let mut b: DictionaryUtf8Builder<i32> = DictionaryUtf8Builder::new(
        DictionaryKeyKind::U32,
        false,
    );
    b.serialize_str("north").unwrap();
    b.serialize_str("south").unwrap();
    b.serialize_str("north").unwrap();
    let (keys, values) = b.build_array();
    let keys = match keys {
        DictionaryKeys::U32(arr) => arr.into_view(),
        other => panic!("unexpected key width: {:?}", other),
    };
    let d = DictionaryDeserializer::new("$".to_string(), keys, values);
    assert_eq!(d.deserialize_str(0), Ok("north".to_string()));
    assert_eq!(d.deserialize_str(1), Ok("south".to_string()));
    assert_eq!(d.deserialize_str(2), Ok("north".to_string()));
    assert_eq!(d.deserialize_str(3), Err(Error::OutOfRange));
}

#[test]
fn dictionary_key_outside_value_table_is_out_of_range() {
    let keys = PrimitiveView { values: vec![5u8], validity: None };
    let values = Utf8Array::<i32> { offsets: vec![0, 1], data: b"a".to_vec(), validity: None };
    let d = DictionaryDeserializer::new("$".to_string(), keys, values);
    assert_eq!(d.deserialize_str(0), Err(Error::OutOfRange));
}
