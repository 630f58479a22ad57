use serde_arrow::array::TimeUnit;
use serde_arrow::date_deserializer::DateDeserializer;
use serde_arrow::time_deserializer::TimeDeserializer;
use serde_arrow::Error;

#[test]
fn epoch_renders_as_calendar_date() {
    let d: DateDeserializer<i32> = DateDeserializer::new("$".to_string(), vec![0], None);
    assert_eq!(d.deserialize_str(0), Ok("1970-01-01".to_string()));
}

#[test]
fn negative_year_renders_with_six_digit_magnitude() {
    // Day -719893 from the epoch is the first day of year -1.
    let d: DateDeserializer<i32> = DateDeserializer::new("$".to_string(), vec![-719893], None);
    assert_eq!(d.deserialize_str(0), Ok("-000001-01-01".to_string()));
}

#[test]
fn date64_scales_milliseconds_to_days() {
    // 86_400_000 ms is one whole day.
    let d: DateDeserializer<i64> = DateDeserializer::new("$".to_string(), vec![86_400_000], None);
    assert_eq!(d.deserialize_str(0), Ok("1970-01-02".to_string()));
}

#[test]
fn known_dates_render_exactly() {
    // 2021-01-01 is 18628 days after the epoch.
    let d: DateDeserializer<i32> = DateDeserializer::new("$".to_string(), vec![18628, -1], None);
    assert_eq!(d.deserialize_str(0), Ok("2021-01-01".to_string()));
    assert_eq!(d.deserialize_str(1), Ok("1969-12-31".to_string()));
}

#[test]
fn date_raw_values_read_back_with_range_check() {
    let d: DateDeserializer<i64> = DateDeserializer::new("$".to_string(), vec![86_400_000], None);
    assert_eq!(d.deserialize_i64(0), Ok(86_400_000i64));
    let d: DateDeserializer<i64> = DateDeserializer::new("$".to_string(), vec![i64::from(i32::MAX) + 1], None);
    assert_eq!(d.deserialize_i32(0), Err(Error::Overflow(i128::from(i32::MAX) + 1)));
}

#[test]
fn date_out_of_calendar_range_is_a_conversion_error() {
    let d: DateDeserializer<i64> = DateDeserializer::new("$".to_string(), vec![i64::MAX], None);
    assert_eq!(d.deserialize_str(0), Err(Error::Conversion));
}

#[test]
fn times_render_per_unit() {
    let d: TimeDeserializer<i32> =
        TimeDeserializer::new("$".to_string(), vec![12 * 3_600 + 34 * 60 + 56], None, TimeUnit::Second);
    assert_eq!(d.deserialize_str(0), Ok("12:34:56".to_string()));

    // The sub-second remainder is scaled down by the nanosecond factor:
    // 500 ms over the whole second leave no whole nanosecond-factor unit.
    let d: TimeDeserializer<i32> = TimeDeserializer::new("$".to_string(), vec![1_500], None, TimeUnit::Millisecond);
    assert_eq!(d.deserialize_str(0), Ok("00:00:01".to_string()));

    let d: TimeDeserializer<i64> =
        TimeDeserializer::new("$".to_string(), vec![1_000_000_001], None, TimeUnit::Nanosecond);
    assert_eq!(d.deserialize_str(0), Ok("00:00:01.000000001".to_string()));
}

#[test]
fn time_outside_the_day_is_a_conversion_error() {
    let d: TimeDeserializer<i32> = TimeDeserializer::new("$".to_string(), vec![86_400], None, TimeUnit::Second);
    assert_eq!(d.deserialize_str(0), Err(Error::Conversion));
    let d: TimeDeserializer<i32> = TimeDeserializer::new("$".to_string(), vec![-1], None, TimeUnit::Second);
    assert_eq!(d.deserialize_str(0), Err(Error::Conversion));
}

#[test]
fn time_raw_values_read_back() {
    let d: TimeDeserializer<i64> = TimeDeserializer::new("$".to_string(), vec![123], None, TimeUnit::Microsecond);
    assert_eq!(d.deserialize_i64(0), Ok(123i64));
    assert_eq!(d.deserialize_i32(0), Ok(123i32));
}
