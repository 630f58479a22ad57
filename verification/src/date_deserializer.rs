use vstd::prelude::*;
use chrono::Datelike;
use crate::Error;
use crate::decimal::{dec_digits, push_dec, push_dec_padded, zero_pad};
use crate::integer::Integer;
use crate::views::PrimitiveView;

verus! {

/// Truncating division, as the hardware divides: the quotient rounded
/// toward zero (for a positive divisor).
pub open spec fn div_trunc(a: int, b: int) -> int {
    if a >= 0 {
        a / b
    } else {
        -((-a) / b)
    }
}

/// The calendar date — year, month, day in the proleptic Gregorian
/// calendar — of the given day number counted from the calendar's first
/// day, or nothing where the day number leaves the supported range of
/// years.
pub uninterp spec fn civil_of_ce(days: i32) -> Option<(i32, u32, u32)>;

/// Relies on `chrono::NaiveDate::from_num_days_from_ce_opt`, which
/// resolves a day number to a date exactly when it is in chrono's range,
/// and on `Datelike::year`/`month`/`day`, whose results chrono documents
/// as the date's year and its month in 1..=12 and day in 1..=31.
#[verifier::external_body]
fn civil_from_days_ce(days: i32) -> (r: Option<(i32, u32, u32)>)
    ensures
        r == civil_of_ce(days),
        match r {
            Some(ymd) => 1 <= ymd.1 <= 12 && 1 <= ymd.2 <= 31,
            None => true,
        },
{
    let date = chrono::NaiveDate::from_num_days_from_ce_opt(days)?;
    Some((date.year(), date.month(), date.day()))
}

/// The number of days between the calendar's first day and the Unix
/// epoch.
pub open spec fn spec_epoch_days_from_ce() -> int {
    719_163
}

/// The calendar rendering of a date: negative years as a sign and a
/// six-digit zero-padded magnitude (the form downstream calendar parsers
/// expect), years up to 9999 zero-padded to four digits, wider years with
/// an explicit plus sign; then two-digit month and day.
pub open spec fn spec_date_str(y: int, m: int, d: int) -> Seq<char> {
    let tail = seq!['-'] + zero_pad(dec_digits(m), 2) + seq!['-'] + zero_pad(dec_digits(d), 2);
    if y < 0 {
        seq!['-'] + zero_pad(dec_digits(-y), 6) + tail
    } else if y <= 9999 {
        zero_pad(dec_digits(y), 4) + tail
    } else {
        seq!['+'] + dec_digits(y) + tail
    }
}

/// The exact rendering of a raw date value: the value scaled down to
/// days, resolved to a calendar date, and formatted; a value whose day
/// number no calendar date answers to is a conversion error.
pub open spec fn spec_date_repr(ts: int, factor: int) -> Result<Seq<char>, Error> {
    let ce = div_trunc(ts, factor) + spec_epoch_days_from_ce();
    if ce < i32::MIN || ce > i32::MAX {
        Err(Error::Conversion)
    } else {
        match civil_of_ce(ce as i32) {
            None => Err(Error::Conversion),
            Some(ymd) => Ok(spec_date_str(ymd.0 as int, ymd.1 as int, ymd.2 as int)),
        }
    }
}

/// Renders a calendar date as text.
pub fn format_date(y: i32, m: u32, d: u32) -> (r: String)
    requires
        1 <= m <= 12,
        1 <= d <= 31,
    ensures
        r@ == spec_date_str(y as int, m as int, d as int),
{
    proof {
        reveal_strlit("-");
        reveal_strlit("+");
        reveal_strlit("");
    }
    let mut s = String::new();
    if y < 0 {
        s.append("-");
        let mag: u64 = (-(y as i64)) as u64;
        push_dec_padded(&mut s, mag, 6);
    } else if y <= 9999 {
        push_dec_padded(&mut s, y as u64, 4);
    } else {
        s.append("+");
        push_dec(&mut s, y as u64);
    }
    s.append("-");
    push_dec_padded(&mut s, m as u64, 2);
    s.append("-");
    push_dec_padded(&mut s, d as u64, 2);
    proof {
        assert(s@ =~= spec_date_str(y as int, m as int, d as int));
    }
    s
}

/// An integer type that a date column stores: the raw value divided by
/// the day factor is a day count from the Unix epoch (`1` for a day
/// count itself, the number of milliseconds per day for a
/// millisecond-resolution column).
pub trait DatePrimitive: Integer {
    spec fn day_factor_spec() -> int;

    proof fn lemma_day_factor()
        ensures
            1 <= Self::day_factor_spec() <= i64::MAX,
            i64::MIN <= Self::min_spec(),
            Self::max_spec() <= i64::MAX,
    ;

    fn day_factor_i64() -> (r: i64)
        ensures
            r == Self::day_factor_spec(),
    ;
}

impl DatePrimitive for i32 {
    open spec fn day_factor_spec() -> int {
        1
    }

    proof fn lemma_day_factor() {
    }

    fn day_factor_i64() -> i64 {
        1
    }
}

impl DatePrimitive for i64 {
    open spec fn day_factor_spec() -> int {
        86_400_000
    }

    proof fn lemma_day_factor() {
    }

    fn day_factor_i64() -> i64 {
        86_400_000
    }
}

/// Reads any row of a date column by index: as the raw stored integer
/// (range-checked) or as a rendered calendar date.
#[derive(Debug, Clone, PartialEq)]
pub struct DateDeserializer<T: DatePrimitive> {
    pub path: String,
    pub array: PrimitiveView<T>,
}

impl DateDeserializer<i32> {
    /// Supplies this column's error context where absent.
    pub fn annotate(&self, annotations: &mut Vec<(String, String)>)
        ensures
            crate::context::spec_annotated(
                old(annotations)@,
                final(annotations)@,
                self.path@,
                "Date32"@,
            ),
    {
        crate::context::annotate_with(annotations, self.path.as_str(), "Date32");
    }
}

impl DateDeserializer<i64> {
    /// Supplies this column's error context where absent.
    pub fn annotate(&self, annotations: &mut Vec<(String, String)>)
        ensures
            crate::context::spec_annotated(
                old(annotations)@,
                final(annotations)@,
                self.path@,
                "Date64"@,
            ),
    {
        crate::context::annotate_with(annotations, self.path.as_str(), "Date64");
    }
}

impl<T: DatePrimitive> DateDeserializer<T> {
    pub open spec fn wf(self) -> bool {
        self.array.wf()
    }

    pub fn new(path: String, buffer: Vec<T>, validity: Option<crate::bits::BitsWithOffset>) -> (r:
        Self)
        ensures
            r.path == path,
            r.array.values == buffer,
            r.array.validity == validity,
    {
        DateDeserializer { path, array: PrimitiveView { values: buffer, validity } }
    }

    pub fn is_some(&self, idx: usize) -> (r: Result<bool, Error>)
        requires
            self.wf(),
        ensures
            r == self.array.spec_is_some(idx as int),
    {
        self.array.is_some(idx)
    }

    /// The raw stored value of a non-null row, narrowed to 32 bits with a
    /// range check.
    pub fn deserialize_i32(&self, idx: usize) -> (r: Result<i32, Error>)
        requires
            self.wf(),
        ensures
            match r {
                Ok(v) => crate::integer_deserializer::spec_narrow(
                    self.array,
                    idx as int,
                    i32::MIN as int,
                    i32::MAX as int,
                ) == Ok::<int, Error>(v as int),
                Err(e) => crate::integer_deserializer::spec_narrow(
                    self.array,
                    idx as int,
                    i32::MIN as int,
                    i32::MAX as int,
                ) == Err::<int, Error>(e),
            },
    {
        self.array.get_required(idx)?.into_i32()
    }

    /// The raw stored value of a non-null row, widened to 64 bits.
    pub fn deserialize_i64(&self, idx: usize) -> (r: Result<i64, Error>)
        requires
            self.wf(),
        ensures
            match r {
                Ok(v) => crate::integer_deserializer::spec_narrow(
                    self.array,
                    idx as int,
                    i64::MIN as int,
                    i64::MAX as int,
                ) == Ok::<int, Error>(v as int),
                Err(e) => crate::integer_deserializer::spec_narrow(
                    self.array,
                    idx as int,
                    i64::MIN as int,
                    i64::MAX as int,
                ) == Err::<int, Error>(e),
            },
    {
        self.array.get_required(idx)?.into_i64()
    }

    /// The calendar rendering of one raw value.
    pub fn get_string_repr(&self, ts: T) -> (r: Result<String, Error>)
        ensures
            match r {
                Ok(s) => spec_date_repr(ts.as_int(), T::day_factor_spec()) == Ok::<
                    Seq<char>,
                    Error,
                >(s@),
                Err(e) => spec_date_repr(ts.as_int(), T::day_factor_spec()) == Err::<
                    Seq<char>,
                    Error,
                >(e),
            },
    {
        proof {
            T::lemma_day_factor();
            T::lemma_range();
            ts.lemma_bounds();
        }
        let v: i64 = match ts.into_i64() {
            Ok(v) => v,
            Err(_) => {
                return Err(Error::Conversion);
            },
        };
        let factor = T::day_factor_i64();
        let days: i64 = match v.checked_div(factor) {
            Some(q) => q,
            None => {
                return Err(Error::Conversion);
            },
        };
        proof {
            assert(days == div_trunc(ts.as_int(), T::day_factor_spec()));
        }
        let ce64: i64 = match days.checked_add(719_163) {
            Some(c) => c,
            None => {
                return Err(Error::Conversion);
            },
        };
        if ce64 < i32::MIN as i64 || ce64 > i32::MAX as i64 {
            return Err(Error::Conversion);
        }
        let ce: i32 = ce64 as i32;
        match civil_from_days_ce(ce) {
            None => Err(Error::Conversion),
            Some((y, m, d)) => Ok(format_date(y, m, d)),
        }
    }

    /// The calendar rendering of a non-null row.
    pub fn deserialize_str(&self, idx: usize) -> (r: Result<String, Error>)
        requires
            self.wf(),
        ensures
            match r {
                Ok(s) => spec_date_read(self.array, idx as int, T::day_factor_spec()) == Ok::<
                    Seq<char>,
                    Error,
                >(s@),
                Err(e) => spec_date_read(self.array, idx as int, T::day_factor_spec()) == Err::<
                    Seq<char>,
                    Error,
                >(e),
            },
    {
        let ts = self.array.get_required(idx)?;
        self.get_string_repr(ts)
    }
}

/// The exact outcome of rendering row `idx` of a date column.
pub open spec fn spec_date_read<T: DatePrimitive>(
    view: PrimitiveView<T>,
    idx: int,
    factor: int,
) -> Result<Seq<char>, Error> {
    match view.spec_get_required(idx) {
        Err(e) => Err(e),
        Ok(v) => spec_date_repr(v.as_int(), factor),
    }
}

} // verus!
