use serde_arrow::array::Utf8Array;
use serde_arrow::array_deserializer::ArrayDeserializer;
use serde_arrow::bits::BitsWithOffset;
use serde_arrow::integer_deserializer::IntegerDeserializer;
use serde_arrow::primitive_builder::PrimitiveBuilder;
use serde_arrow::string_deserializer::StringDeserializer;
use serde_arrow::utf8_builder::Utf8Builder;
use serde_arrow::views::{ArrayView, PrimitiveView};
use serde_arrow::Error;

#[test]
fn integer_narrowing_checks_the_range() {
    let view = PrimitiveView { values: vec![300i64], validity: None };
    let d = IntegerDeserializer::new("$".to_string(), view);
    // An i64 value of 300 does not fit a u8.
    // The overflow error names the offending value 300.
    assert_eq!(d.deserialize_u8(0), Err(Error::Overflow(300)));
    assert_eq!(d.deserialize_u16(0), Ok(300u16));
    assert_eq!(d.deserialize_i64(0), Ok(300i64));
}

#[test]
fn negative_values_do_not_widen_to_unsigned() {
    let view = PrimitiveView { values: vec![-1i32], validity: None };
    let d = IntegerDeserializer::new("$".to_string(), view);
    assert_eq!(d.deserialize_u64(0), Err(Error::Overflow(-1)));
    assert_eq!(d.deserialize_i8(0), Ok(-1i8));
}

#[test]
fn bool_reads_require_zero_or_one() {
    let view = PrimitiveView { values: vec![0u8, 1, 2], validity: None };
    let d = IntegerDeserializer::new("$".to_string(), view);
    assert_eq!(d.deserialize_bool(0), Ok(false));
    assert_eq!(d.deserialize_bool(1), Ok(true));
    assert_eq!(d.deserialize_bool(2), Err(Error::Overflow(2)));
}

#[test]
fn out_of_range_row_index_is_reported() {
    let view = PrimitiveView { values: vec![5i16], validity: None };
    let d = IntegerDeserializer::new("$".to_string(), view);
    assert_eq!(d.is_some(1), Err(Error::OutOfRange));
    assert_eq!(d.deserialize_i16(7), Err(Error::OutOfRange));
}

#[test]
fn reading_a_null_row_as_a_value_fails() {
    // validity bitmap 0b01: row 0 valid, row 1 null
    let view = PrimitiveView {
        values: vec![10i32, 20],
        validity: Some(BitsWithOffset { data: vec![0b01u8], offset: 0 }),
    };
    let d = IntegerDeserializer::new("$".to_string(), view);
    assert_eq!(d.is_some(0), Ok(true));
    assert_eq!(d.is_some(1), Ok(false));
    assert_eq!(d.deserialize_i32(0), Ok(10));
    assert_eq!(d.deserialize_i32(1), Err(Error::TypeMismatch));
}

#[test]
fn validity_honours_the_bit_offset() {
    // The two rows' flags are bits 3 and 4 of the byte: 0b0000_1000.
    let view = PrimitiveView {
        values: vec![1u32, 2],
        validity: Some(BitsWithOffset { data: vec![0b0000_1000u8], offset: 3 }),
    };
    let d = IntegerDeserializer::new("$".to_string(), view);
    assert_eq!(d.is_some(0), Ok(true));
    assert_eq!(d.is_some(1), Ok(false));
}

#[test]
fn string_round_trip_through_built_column() {
    let mut b: Utf8Builder<i64> = Utf8Builder::new(true);
    b.serialize_str("grüß").unwrap();
    b.serialize_none().unwrap();
    b.serialize_str("").unwrap();
    let arr = b.build_array();
    let d = StringDeserializer::new("$".to_string(), arr);
    assert_eq!(d.deserialize_str(0), Ok("grüß".to_string()));
    assert_eq!(d.is_some(1), Ok(false));
    assert_eq!(d.deserialize_str(1), Err(Error::TypeMismatch));
    assert_eq!(d.deserialize_str(2), Ok(String::new()));
    assert_eq!(d.deserialize_bytes(0), Ok("grüß".as_bytes().to_vec()));
}

#[test]
fn invalid_utf8_bytes_are_a_conversion_error() {
    let arr = Utf8Array::<i32> { offsets: vec![0, 2], data: vec![0xff, 0xfe], validity: None };
    let d = StringDeserializer::new("$".to_string(), arr);
    assert_eq!(d.deserialize_str(0), Err(Error::Conversion));
    // The raw bytes can still be read.
    assert_eq!(d.deserialize_bytes(0), Ok(vec![0xff, 0xfe]));
}

#[test]
fn dispatch_rejects_mismatched_kinds() {
    let mut b: PrimitiveBuilder<i32> = PrimitiveBuilder::new(false);
    b.serialize_value(1).unwrap();
    let view = b.build_array().into_view();
    let d = ArrayDeserializer::new("$".to_string(), ArrayView::Int32(view));
    // Requesting a string read of an integer column is a type mismatch.
    assert_eq!(d.deserialize_str(0), Err(Error::TypeMismatch));
    assert_eq!(d.deserialize_i32(0), Ok(1));
    assert_eq!(d.is_some(0), Ok(true));
}

#[test]
fn dispatch_reads_strings_and_integers() {
    let mut b: Utf8Builder<i32> = Utf8Builder::new(false);
    b.serialize_str("row").unwrap();
    let d = ArrayDeserializer::new("$".to_string(), ArrayView::Utf8(b.build_array()));
    assert_eq!(d.deserialize_str(0), Ok("row".to_string()));
    assert_eq!(d.deserialize_u8(0), Err(Error::TypeMismatch));
}

#[test]
fn char_reads_require_a_unicode_scalar_value() {
    let view = PrimitiveView { values: vec![65u32, 0xD800, 0x1F600], validity: None };
    let d = IntegerDeserializer::new("$".to_string(), view);
    assert_eq!(d.deserialize_char(0), Ok('A'));
    // A surrogate code point is not a character.
    assert_eq!(d.deserialize_char(1), Err(Error::Conversion));
    assert_eq!(d.deserialize_char(2), Ok('😀'));
    let view = PrimitiveView { values: vec![-1i32], validity: None };
    let d = IntegerDeserializer::new("$".to_string(), view);
    assert_eq!(d.deserialize_char(0), Err(Error::Overflow(-1)));
}
