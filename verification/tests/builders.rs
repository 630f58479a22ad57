use serde_arrow::offsets::MutableOffsetBuffer;
use serde_arrow::primitive_builder::PrimitiveBuilder;
use serde_arrow::utf8_builder::Utf8Builder;
use serde_arrow::Error;

#[test]
fn utf8_builder_layout_and_validity() {
    let mut b: Utf8Builder<i32> = Utf8Builder::new(true);
    b.serialize_str("he").unwrap();
    b.serialize_none().unwrap();
    b.serialize_str("llo").unwrap();
    let arr = b.build_array();
    assert_eq!(arr.offsets, vec![0, 2, 2, 5]);
    assert_eq!(arr.data, b"hello".to_vec());
    // validity bitmap: LSB-first, rows 0 and 2 valid -> 0b101
    assert_eq!(arr.validity, Some(vec![0b101u8]));
}

#[test]
fn utf8_builder_default_rows() {
    let mut b: Utf8Builder<i32> = Utf8Builder::new(false);
    b.serialize_str("x").unwrap();
    b.serialize_default().unwrap();
    let arr = b.build_array();
    assert_eq!(arr.offsets, vec![0, 1, 1]);
    assert_eq!(arr.validity, None);
}

#[test]
fn null_on_non_nullable_column_is_schema_error() {
    let mut b: Utf8Builder<i32> = Utf8Builder::new(false);
    assert_eq!(b.serialize_none(), Err(Error::Schema));
    let mut p: PrimitiveBuilder<i32> = PrimitiveBuilder::new(false);
    assert_eq!(p.serialize_none(), Err(Error::Schema));
}

#[test]
fn offsets_overflow_on_32_bit_column() {
    // A value of 2^31 bytes cannot be recorded in a 32-bit offset column.
    let mut offsets: MutableOffsetBuffer<i32> = MutableOffsetBuffer::new();
    // The error names the byte count past the 32-bit offset range.
    assert_eq!(offsets.push(2147483648usize), Err(Error::Overflow(2147483648)));
    // ... and neither can two values whose total passes the limit.
    let mut offsets: MutableOffsetBuffer<i32> = MutableOffsetBuffer::new();
    assert!(offsets.push(2147483647usize).is_ok());
    assert_eq!(offsets.push(1), Err(Error::Overflow(2147483648)));
    // A 64-bit offset column takes the same length without complaint.
    let mut offsets: MutableOffsetBuffer<i64> = MutableOffsetBuffer::new();
    assert!(offsets.push(2147483648usize).is_ok());
}

#[test]
fn offsets_stay_monotone_and_start_at_zero() {
    let mut offsets: MutableOffsetBuffer<i32> = MutableOffsetBuffer::new();
    offsets.push(3).unwrap();
    offsets.push_current_items();
    offsets.push(2).unwrap();
    assert_eq!(offsets.offsets, vec![0, 3, 3, 5]);
    for w in offsets.offsets.windows(2) {
        assert!(w[0] <= w[1]);
    }
}

#[test]
fn primitive_builder_stores_values_and_validity() {
    let mut b: PrimitiveBuilder<i64> = PrimitiveBuilder::new(true);
    b.serialize_value(-7).unwrap();
    b.serialize_none().unwrap();
    b.serialize_value(42).unwrap();
    let arr = b.build_array();
    assert_eq!(arr.values, vec![-7, 0, 42]);
    assert_eq!(arr.validity, Some(vec![0b101u8]));
}

#[test]
fn builder_resets_after_build() {
    let mut b: Utf8Builder<i32> = Utf8Builder::new(true);
    b.serialize_str("a").unwrap();
    let first = b.build_array();
    assert_eq!(first.offsets, vec![0, 1]);
    b.serialize_str("bc").unwrap();
    let second = b.build_array();
    assert_eq!(second.offsets, vec![0, 2]);
    assert_eq!(second.data, b"bc".to_vec());
}

#[test]
fn empty_columns_are_well_formed() {
    let mut b: Utf8Builder<i32> = Utf8Builder::new(true);
    let arr = b.build_array();
    assert_eq!(arr.offsets, vec![0]);
    assert!(arr.data.is_empty());
    assert_eq!(arr.validity, Some(vec![]));

    let mut p: PrimitiveBuilder<u8> = PrimitiveBuilder::new(false);
    let arr = p.build_array();
    assert!(arr.values.is_empty());
    assert_eq!(arr.validity, None);
}

#[test]
fn nine_rows_pack_into_two_validity_bytes() {
    let mut b: PrimitiveBuilder<i16> = PrimitiveBuilder::new(true);
    for i in 0..9 {
        if i % 2 == 0 {
            b.serialize_value(i).unwrap();
        } else {
            b.serialize_none().unwrap();
        }
    }
    let arr = b.build_array();
    // rows 0,2,4,6 valid in the first byte; row 8 valid in the second.
    assert_eq!(arr.validity, Some(vec![0b0101_0101u8, 0b1u8]));
}
