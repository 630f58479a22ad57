use vstd::prelude::*;
use crate::Error;
use crate::array::TimeUnit;
use crate::integer::Integer;
use crate::views::PrimitiveView;

verus! {

/// The text that the calendar library renders for a time of day given as
/// seconds since midnight plus a nanosecond fraction; a function of the
/// two values alone.
pub uninterp spec fn time_str_of(secs: u32, nano: u32) -> Seq<char>;

/// Whether the calendar library accepts the pair: under a day of
/// seconds, under two seconds of nanoseconds, and a leap-second fraction
/// (at or over one second of nanoseconds) only on a 59th second.
pub open spec fn spec_time_valid(secs: int, nano: int) -> bool {
    &&& secs < 86_400
    &&& nano < 2_000_000_000
    &&& (nano < 1_000_000_000 || secs % 60 == 59)
}

/// Relies on `chrono::NaiveTime::from_num_seconds_from_midnight_opt`,
/// which accepts exactly the pairs above, and on `NaiveTime`'s `Display`
/// rendering, which depends on the value alone.
#[verifier::external_body]
fn chrono_time_string(secs: u32, nano: u32) -> (r: Option<String>)
    ensures
        r is Some <==> spec_time_valid(secs as int, nano as int),
        match r {
            Some(s) => s@ == time_str_of(secs, nano),
            None => true,
        },
{
    let t = chrono::NaiveTime::from_num_seconds_from_midnight_opt(secs, nano)?;
    Some(t.to_string())
}

/// The factors that scale a raw value of the given unit: how many raw
/// units make a second, and how many nanoseconds one raw unit spans.
pub open spec fn spec_unit_factors(unit: TimeUnit) -> (int, int) {
    match unit {
        TimeUnit::Nanosecond => (1_000_000_000, 1),
        TimeUnit::Microsecond => (1_000_000, 1_000),
        TimeUnit::Millisecond => (1_000, 1_000_000),
        TimeUnit::Second => (1, 1_000_000_000),
    }
}

/// The exact rendering of a raw time value with the given factors: the
/// whole seconds and the nanosecond remainder, rendered by the calendar
/// library; a negative value or one past the representable day is a
/// conversion error.
pub open spec fn spec_time_repr(ts: int, sf: int, nf: int) -> Result<Seq<char>, Error> {
    if ts < 0 {
        Err(Error::Conversion)
    } else {
        let secs = ts / sf;
        let nano = (ts % sf) / nf;
        if secs <= u32::MAX && nano <= u32::MAX && spec_time_valid(secs, nano) {
            Ok(time_str_of(secs as u32, nano as u32))
        } else {
            Err(Error::Conversion)
        }
    }
}

/// Reads any row of a time-of-day column by index: as the raw stored
/// integer (range-checked) or as rendered clock time. The unit factors
/// are fixed once at construction.
#[derive(Debug, Clone, PartialEq)]
pub struct TimeDeserializer<T: Integer> {
    pub path: String,
    pub array: PrimitiveView<T>,
    pub seconds_factor: i64,
    pub nanoseconds_factor: i64,
}

impl TimeDeserializer<i32> {
    /// Supplies this column's error context where absent.
    pub fn annotate(&self, annotations: &mut Vec<(String, String)>)
        ensures
            crate::context::spec_annotated(
                old(annotations)@,
                final(annotations)@,
                self.path@,
                "Time32"@,
            ),
    {
        crate::context::annotate_with(annotations, self.path.as_str(), "Time32");
    }
}

impl TimeDeserializer<i64> {
    /// Supplies this column's error context where absent.
    pub fn annotate(&self, annotations: &mut Vec<(String, String)>)
        ensures
            crate::context::spec_annotated(
                old(annotations)@,
                final(annotations)@,
                self.path@,
                "Time64"@,
            ),
    {
        crate::context::annotate_with(annotations, self.path.as_str(), "Time64");
    }
}

impl<T: Integer> TimeDeserializer<T> {
    pub open spec fn wf(self) -> bool {
        &&& self.array.wf()
        &&& (self.seconds_factor as int, self.nanoseconds_factor as int) == spec_unit_factors(
            TimeUnit::Nanosecond,
        ) || (self.seconds_factor as int, self.nanoseconds_factor as int) == spec_unit_factors(
            TimeUnit::Microsecond,
        ) || (self.seconds_factor as int, self.nanoseconds_factor as int) == spec_unit_factors(
            TimeUnit::Millisecond,
        ) || (self.seconds_factor as int, self.nanoseconds_factor as int) == spec_unit_factors(
            TimeUnit::Second,
        )
    }

    pub fn new(
        path: String,
        values: Vec<T>,
        validity: Option<crate::bits::BitsWithOffset>,
        unit: TimeUnit,
    ) -> (r: Self)
        ensures
            r.path == path,
            r.array.values == values,
            r.array.validity == validity,
            (r.seconds_factor as int, r.nanoseconds_factor as int) == spec_unit_factors(unit),
    {
        let (seconds_factor, nanoseconds_factor): (i64, i64) = match unit {
            TimeUnit::Nanosecond => (1_000_000_000, 1),
            TimeUnit::Microsecond => (1_000_000, 1_000),
            TimeUnit::Millisecond => (1_000, 1_000_000),
            TimeUnit::Second => (1, 1_000_000_000),
        };
        TimeDeserializer {
            path,
            array: PrimitiveView { values, validity },
            seconds_factor,
            nanoseconds_factor,
        }
    }

    pub fn is_some(&self, idx: usize) -> (r: Result<bool, Error>)
        requires
            self.wf(),
        ensures
            r == self.array.spec_is_some(idx as int),
    {
        self.array.is_some(idx)
    }

    /// The raw stored value of a non-null row, narrowed to 32 bits with a
    /// range check.
    pub fn deserialize_i32(&self, idx: usize) -> (r: Result<i32, Error>)
        requires
            self.wf(),
        ensures
            match r {
                Ok(v) => crate::integer_deserializer::spec_narrow(
                    self.array,
                    idx as int,
                    i32::MIN as int,
                    i32::MAX as int,
                ) == Ok::<int, Error>(v as int),
                Err(e) => crate::integer_deserializer::spec_narrow(
                    self.array,
                    idx as int,
                    i32::MIN as int,
                    i32::MAX as int,
                ) == Err::<int, Error>(e),
            },
    {
        self.array.get_required(idx)?.into_i32()
    }

    pub fn deserialize_i64(&self, idx: usize) -> (r: Result<i64, Error>)
        requires
            self.wf(),
        ensures
            match r {
                Ok(v) => crate::integer_deserializer::spec_narrow(
                    self.array,
                    idx as int,
                    i64::MIN as int,
                    i64::MAX as int,
                ) == Ok::<int, Error>(v as int),
                Err(e) => crate::integer_deserializer::spec_narrow(
                    self.array,
                    idx as int,
                    i64::MIN as int,
                    i64::MAX as int,
                ) == Err::<int, Error>(e),
            },
    {
        self.array.get_required(idx)?.into_i64()
    }

    /// The clock rendering of one raw value.
    pub fn get_string_repr(&self, ts: i64) -> (r: Result<String, Error>)
        requires
            self.wf(),
        ensures
            match r {
                Ok(s) => spec_time_repr(
                    ts as int,
                    self.seconds_factor as int,
                    self.nanoseconds_factor as int,
                ) == Ok::<Seq<char>, Error>(s@),
                Err(e) => spec_time_repr(
                    ts as int,
                    self.seconds_factor as int,
                    self.nanoseconds_factor as int,
                ) == Err::<Seq<char>, Error>(e),
            },
    {
        if ts < 0 {
            return Err(Error::Conversion);
        }
        let t = ts as u64;
        let sf = self.seconds_factor as u64;
        let nf = self.nanoseconds_factor as u64;
        let secs64 = t / sf;
        let nano64 = (t % sf) / nf;
        if secs64 > u32::MAX as u64 || nano64 > u32::MAX as u64 {
            return Err(Error::Conversion);
        }
        let secs = secs64 as u32;
        let nano = nano64 as u32;
        match chrono_time_string(secs, nano) {
            Some(s) => Ok(s),
            None => Err(Error::Conversion),
        }
    }

    /// The clock rendering of a non-null row.
    pub fn deserialize_str(&self, idx: usize) -> (r: Result<String, Error>)
        requires
            self.wf(),
        ensures
            match r {
                Ok(s) => spec_time_read(
                    self.array,
                    idx as int,
                    self.seconds_factor as int,
                    self.nanoseconds_factor as int,
                ) == Ok::<Seq<char>, Error>(s@),
                Err(e) => spec_time_read(
                    self.array,
                    idx as int,
                    self.seconds_factor as int,
                    self.nanoseconds_factor as int,
                ) == Err::<Seq<char>, Error>(e),
            },
    {
        let v = self.array.get_required(idx)?;
        proof {
            T::lemma_range();
            v.lemma_bounds();
        }
        let ts: i64 = match v.into_i64() {
            Ok(w) => w,
            Err(_) => {
                return Err(Error::Conversion);
            },
        };
        self.get_string_repr(ts)
    }
}

/// The exact outcome of rendering row `idx` of a time column.
pub open spec fn spec_time_read<T: Integer>(
    view: PrimitiveView<T>,
    idx: int,
    sf: int,
    nf: int,
) -> Result<Seq<char>, Error> {
    match view.spec_get_required(idx) {
        Err(e) => Err(e),
        Ok(v) => if i64::MIN <= v.as_int() <= i64::MAX {
            spec_time_repr(v.as_int(), sf, nf)
        } else {
            Err(Error::Conversion)
        },
    }
}

} // verus!
