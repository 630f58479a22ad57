use vstd::prelude::*;
use crate::Error;

verus! {

/// An integer value as stored in a fixed-width column. Every conversion
/// to a requested width is range-checked: a value that does not fit the
/// requested type is an overflow error, never a silent truncation, and a
/// boolean read accepts exactly 0 and 1.
pub trait Integer: Sized + Copy {
    /// The mathematical value.
    spec fn as_int(self) -> int;

    /// The smallest value of the type.
    spec fn min_spec() -> int;

    /// The largest value of the type.
    spec fn max_spec() -> int;

    proof fn lemma_range()
        ensures
            Self::min_spec() <= 0 < Self::max_spec(),
            i64::MIN <= Self::min_spec(),
            Self::max_spec() <= u64::MAX,
    ;

    /// Every value of the type lies within its stated range.
    proof fn lemma_bounds(self)
        ensures
            Self::min_spec() <= self.as_int() <= Self::max_spec(),
    ;

    fn zero() -> (r: Self)
        ensures
            r.as_int() == 0,
    ;

    /// The physical type's name, as error annotations report it.
    spec fn spec_data_type_name() -> Seq<char>;

    fn data_type_name() -> (r: &'static str)
        ensures
            r@ == Self::spec_data_type_name(),
    ;

    /// The value of the type holding the given index, used for dictionary
    /// keys.
    fn from_usize(v: usize) -> (r: Self)
        requires
            v <= Self::max_spec(),
        ensures
            r.as_int() == v,
    ;

    fn into_bool(self) -> (r: Result<bool, Error>)
        ensures
            match r {
                Ok(b) => self.as_int() == if b { 1int } else { 0int },
                Err(e) => e == Error::Overflow(self.as_int() as i128) && self.as_int() != 0
                    && self.as_int() != 1,
            },
    ;

    fn into_i8(self) -> (r: Result<i8, Error>)
        ensures
            match r {
                Ok(v) => v as int == self.as_int(),
                Err(e) => e == Error::Overflow(self.as_int() as i128) && !(i8::MIN
                    <= self.as_int() <= i8::MAX),
            },
    ;

    fn into_i16(self) -> (r: Result<i16, Error>)
        ensures
            match r {
                Ok(v) => v as int == self.as_int(),
                Err(e) => e == Error::Overflow(self.as_int() as i128) && !(i16::MIN
                    <= self.as_int() <= i16::MAX),
            },
    ;

    fn into_i32(self) -> (r: Result<i32, Error>)
        ensures
            match r {
                Ok(v) => v as int == self.as_int(),
                Err(e) => e == Error::Overflow(self.as_int() as i128) && !(i32::MIN
                    <= self.as_int() <= i32::MAX),
            },
    ;

    fn into_i64(self) -> (r: Result<i64, Error>)
        ensures
            match r {
                Ok(v) => v as int == self.as_int(),
                Err(e) => e == Error::Overflow(self.as_int() as i128) && !(i64::MIN
                    <= self.as_int() <= i64::MAX),
            },
    ;

    fn into_u8(self) -> (r: Result<u8, Error>)
        ensures
            match r {
                Ok(v) => v as int == self.as_int(),
                Err(e) => e == Error::Overflow(self.as_int() as i128) && !(u8::MIN
                    <= self.as_int() <= u8::MAX),
            },
    ;

    fn into_u16(self) -> (r: Result<u16, Error>)
        ensures
            match r {
                Ok(v) => v as int == self.as_int(),
                Err(e) => e == Error::Overflow(self.as_int() as i128) && !(u16::MIN
                    <= self.as_int() <= u16::MAX),
            },
    ;

    fn into_u32(self) -> (r: Result<u32, Error>)
        ensures
            match r {
                Ok(v) => v as int == self.as_int(),
                Err(e) => e == Error::Overflow(self.as_int() as i128) && !(u32::MIN
                    <= self.as_int() <= u32::MAX),
            },
    ;

    fn into_u64(self) -> (r: Result<u64, Error>)
        ensures
            match r {
                Ok(v) => v as int == self.as_int(),
                Err(e) => e == Error::Overflow(self.as_int() as i128) && !(u64::MIN
                    <= self.as_int() <= u64::MAX),
            },
    ;
}

impl Integer for i8 {
    open spec fn as_int(self) -> int {
        self as int
    }

    open spec fn min_spec() -> int {
        i8::MIN as int
    }

    open spec fn max_spec() -> int {
        i8::MAX as int
    }

    proof fn lemma_range() {
    }

    proof fn lemma_bounds(self) {
    }

    fn zero() -> i8 {
        0
    }

    open spec fn spec_data_type_name() -> Seq<char> {
        "Int8"@
    }

    fn data_type_name() -> &'static str {
        "Int8"
    }

    fn from_usize(v: usize) -> i8 {
        v as i8
    }

    fn into_bool(self) -> Result<bool, Error> {
        if self == 0 {
            Ok(false)
        } else if self == 1 {
            Ok(true)
        } else {
            Err(Error::Overflow(self as i128))
        }
    }

    fn into_i8(self) -> Result<i8, Error> {
        let w = self as i128;
        if i8::MIN as i128 <= w && w <= i8::MAX as i128 {
            Ok(w as i8)
        } else {
            Err(Error::Overflow(self as i128))
        }
    }

    fn into_i16(self) -> Result<i16, Error> {
        let w = self as i128;
        if i16::MIN as i128 <= w && w <= i16::MAX as i128 {
            Ok(w as i16)
        } else {
            Err(Error::Overflow(self as i128))
        }
    }

    fn into_i32(self) -> Result<i32, Error> {
        let w = self as i128;
        if i32::MIN as i128 <= w && w <= i32::MAX as i128 {
            Ok(w as i32)
        } else {
            Err(Error::Overflow(self as i128))
        }
    }

    fn into_i64(self) -> Result<i64, Error> {
        let w = self as i128;
        if i64::MIN as i128 <= w && w <= i64::MAX as i128 {
            Ok(w as i64)
        } else {
            Err(Error::Overflow(self as i128))
        }
    }

    fn into_u8(self) -> Result<u8, Error> {
        let w = self as i128;
        if 0 <= w && w <= u8::MAX as i128 {
            Ok(w as u8)
        } else {
            Err(Error::Overflow(self as i128))
        }
    }

    fn into_u16(self) -> Result<u16, Error> {
        let w = self as i128;
        if 0 <= w && w <= u16::MAX as i128 {
            Ok(w as u16)
        } else {
            Err(Error::Overflow(self as i128))
        }
    }

    fn into_u32(self) -> Result<u32, Error> {
        let w = self as i128;
        if 0 <= w && w <= u32::MAX as i128 {
            Ok(w as u32)
        } else {
            Err(Error::Overflow(self as i128))
        }
    }

    fn into_u64(self) -> Result<u64, Error> {
        let w = self as i128;
        if 0 <= w && w <= u64::MAX as i128 {
            Ok(w as u64)
        } else {
            Err(Error::Overflow(self as i128))
        }
    }
}

impl Integer for i16 {
    open spec fn as_int(self) -> int {
        self as int
    }

    open spec fn min_spec() -> int {
        i16::MIN as int
    }

    open spec fn max_spec() -> int {
        i16::MAX as int
    }

    proof fn lemma_range() {
    }

    proof fn lemma_bounds(self) {
    }

    fn zero() -> i16 {
        0
    }

    open spec fn spec_data_type_name() -> Seq<char> {
        "Int16"@
    }

    fn data_type_name() -> &'static str {
        "Int16"
    }

    fn from_usize(v: usize) -> i16 {
        v as i16
    }

    fn into_bool(self) -> Result<bool, Error> {
        if self == 0 {
            Ok(false)
        } else if self == 1 {
            Ok(true)
        } else {
            Err(Error::Overflow(self as i128))
        }
    }

    fn into_i8(self) -> Result<i8, Error> {
        let w = self as i128;
        if i8::MIN as i128 <= w && w <= i8::MAX as i128 {
            Ok(w as i8)
        } else {
            Err(Error::Overflow(self as i128))
        }
    }

    fn into_i16(self) -> Result<i16, Error> {
        let w = self as i128;
        if i16::MIN as i128 <= w && w <= i16::MAX as i128 {
            Ok(w as i16)
        } else {
            Err(Error::Overflow(self as i128))
        }
    }

    fn into_i32(self) -> Result<i32, Error> {
        let w = self as i128;
        if i32::MIN as i128 <= w && w <= i32::MAX as i128 {
            Ok(w as i32)
        } else {
            Err(Error::Overflow(self as i128))
        }
    }

    fn into_i64(self) -> Result<i64, Error> {
        let w = self as i128;
        if i64::MIN as i128 <= w && w <= i64::MAX as i128 {
            Ok(w as i64)
        } else {
            Err(Error::Overflow(self as i128))
        }
    }

    fn into_u8(self) -> Result<u8, Error> {
        let w = self as i128;
        if 0 <= w && w <= u8::MAX as i128 {
            Ok(w as u8)
        } else {
            Err(Error::Overflow(self as i128))
        }
    }

    fn into_u16(self) -> Result<u16, Error> {
        let w = self as i128;
        if 0 <= w && w <= u16::MAX as i128 {
            Ok(w as u16)
        } else {
            Err(Error::Overflow(self as i128))
        }
    }

    fn into_u32(self) -> Result<u32, Error> {
        let w = self as i128;
        if 0 <= w && w <= u32::MAX as i128 {
            Ok(w as u32)
        } else {
            Err(Error::Overflow(self as i128))
        }
    }

    fn into_u64(self) -> Result<u64, Error> {
        let w = self as i128;
        if 0 <= w && w <= u64::MAX as i128 {
            Ok(w as u64)
        } else {
            Err(Error::Overflow(self as i128))
        }
    }
}

impl Integer for i32 {
    open spec fn as_int(self) -> int {
        self as int
    }

    open spec fn min_spec() -> int {
        i32::MIN as int
    }

    open spec fn max_spec() -> int {
        i32::MAX as int
    }

    proof fn lemma_range() {
    }

    proof fn lemma_bounds(self) {
    }

    fn zero() -> i32 {
        0
    }

    open spec fn spec_data_type_name() -> Seq<char> {
        "Int32"@
    }

    fn data_type_name() -> &'static str {
        "Int32"
    }

    fn from_usize(v: usize) -> i32 {
        v as i32
    }

    fn into_bool(self) -> Result<bool, Error> {
        if self == 0 {
            Ok(false)
        } else if self == 1 {
            Ok(true)
        } else {
            Err(Error::Overflow(self as i128))
        }
    }

    fn into_i8(self) -> Result<i8, Error> {
        let w = self as i128;
        if i8::MIN as i128 <= w && w <= i8::MAX as i128 {
            Ok(w as i8)
        } else {
            Err(Error::Overflow(self as i128))
        }
    }

    fn into_i16(self) -> Result<i16, Error> {
        let w = self as i128;
        if i16::MIN as i128 <= w && w <= i16::MAX as i128 {
            Ok(w as i16)
        } else {
            Err(Error::Overflow(self as i128))
        }
    }

    fn into_i32(self) -> Result<i32, Error> {
        let w = self as i128;
        if i32::MIN as i128 <= w && w <= i32::MAX as i128 {
            Ok(w as i32)
        } else {
            Err(Error::Overflow(self as i128))
        }
    }

    fn into_i64(self) -> Result<i64, Error> {
        let w = self as i128;
        if i64::MIN as i128 <= w && w <= i64::MAX as i128 {
            Ok(w as i64)
        } else {
            Err(Error::Overflow(self as i128))
        }
    }

    fn into_u8(self) -> Result<u8, Error> {
        let w = self as i128;
        if 0 <= w && w <= u8::MAX as i128 {
            Ok(w as u8)
        } else {
            Err(Error::Overflow(self as i128))
        }
    }

    fn into_u16(self) -> Result<u16, Error> {
        let w = self as i128;
        if 0 <= w && w <= u16::MAX as i128 {
            Ok(w as u16)
        } else {
            Err(Error::Overflow(self as i128))
        }
    }

    fn into_u32(self) -> Result<u32, Error> {
        let w = self as i128;
        if 0 <= w && w <= u32::MAX as i128 {
            Ok(w as u32)
        } else {
            Err(Error::Overflow(self as i128))
        }
    }

    fn into_u64(self) -> Result<u64, Error> {
        let w = self as i128;
        if 0 <= w && w <= u64::MAX as i128 {
            Ok(w as u64)
        } else {
            Err(Error::Overflow(self as i128))
        }
    }
}

impl Integer for i64 {
    open spec fn as_int(self) -> int {
        self as int
    }

    open spec fn min_spec() -> int {
        i64::MIN as int
    }

    open spec fn max_spec() -> int {
        i64::MAX as int
    }

    proof fn lemma_range() {
    }

    proof fn lemma_bounds(self) {
    }

    fn zero() -> i64 {
        0
    }

    open spec fn spec_data_type_name() -> Seq<char> {
        "Int64"@
    }

    fn data_type_name() -> &'static str {
        "Int64"
    }

    fn from_usize(v: usize) -> i64 {
        v as i64
    }

    fn into_bool(self) -> Result<bool, Error> {
        if self == 0 {
            Ok(false)
        } else if self == 1 {
            Ok(true)
        } else {
            Err(Error::Overflow(self as i128))
        }
    }

    fn into_i8(self) -> Result<i8, Error> {
        let w = self as i128;
        if i8::MIN as i128 <= w && w <= i8::MAX as i128 {
            Ok(w as i8)
        } else {
            Err(Error::Overflow(self as i128))
        }
    }

    fn into_i16(self) -> Result<i16, Error> {
        let w = self as i128;
        if i16::MIN as i128 <= w && w <= i16::MAX as i128 {
            Ok(w as i16)
        } else {
            Err(Error::Overflow(self as i128))
        }
    }

    fn into_i32(self) -> Result<i32, Error> {
        let w = self as i128;
        if i32::MIN as i128 <= w && w <= i32::MAX as i128 {
            Ok(w as i32)
        } else {
            Err(Error::Overflow(self as i128))
        }
    }

    fn into_i64(self) -> Result<i64, Error> {
        let w = self as i128;
        if i64::MIN as i128 <= w && w <= i64::MAX as i128 {
            Ok(w as i64)
        } else {
            Err(Error::Overflow(self as i128))
        }
    }

    fn into_u8(self) -> Result<u8, Error> {
        let w = self as i128;
        if 0 <= w && w <= u8::MAX as i128 {
            Ok(w as u8)
        } else {
            Err(Error::Overflow(self as i128))
        }
    }

    fn into_u16(self) -> Result<u16, Error> {
        let w = self as i128;
        if 0 <= w && w <= u16::MAX as i128 {
            Ok(w as u16)
        } else {
            Err(Error::Overflow(self as i128))
        }
    }

    fn into_u32(self) -> Result<u32, Error> {
        let w = self as i128;
        if 0 <= w && w <= u32::MAX as i128 {
            Ok(w as u32)
        } else {
            Err(Error::Overflow(self as i128))
        }
    }

    fn into_u64(self) -> Result<u64, Error> {
        let w = self as i128;
        if 0 <= w && w <= u64::MAX as i128 {
            Ok(w as u64)
        } else {
            Err(Error::Overflow(self as i128))
        }
    }
}

impl Integer for u8 {
    open spec fn as_int(self) -> int {
        self as int
    }

    open spec fn min_spec() -> int {
        u8::MIN as int
    }

    open spec fn max_spec() -> int {
        u8::MAX as int
    }

    proof fn lemma_range() {
    }

    proof fn lemma_bounds(self) {
    }

    fn zero() -> u8 {
        0
    }

    open spec fn spec_data_type_name() -> Seq<char> {
        "UInt8"@
    }

    fn data_type_name() -> &'static str {
        "UInt8"
    }

    fn from_usize(v: usize) -> u8 {
        v as u8
    }

    fn into_bool(self) -> Result<bool, Error> {
        if self == 0 {
            Ok(false)
        } else if self == 1 {
            Ok(true)
        } else {
            Err(Error::Overflow(self as i128))
        }
    }

    fn into_i8(self) -> Result<i8, Error> {
        let w = self as i128;
        if i8::MIN as i128 <= w && w <= i8::MAX as i128 {
            Ok(w as i8)
        } else {
            Err(Error::Overflow(self as i128))
        }
    }

    fn into_i16(self) -> Result<i16, Error> {
        let w = self as i128;
        if i16::MIN as i128 <= w && w <= i16::MAX as i128 {
            Ok(w as i16)
        } else {
            Err(Error::Overflow(self as i128))
        }
    }

    fn into_i32(self) -> Result<i32, Error> {
        let w = self as i128;
        if i32::MIN as i128 <= w && w <= i32::MAX as i128 {
            Ok(w as i32)
        } else {
            Err(Error::Overflow(self as i128))
        }
    }

    fn into_i64(self) -> Result<i64, Error> {
        let w = self as i128;
        if i64::MIN as i128 <= w && w <= i64::MAX as i128 {
            Ok(w as i64)
        } else {
            Err(Error::Overflow(self as i128))
        }
    }

    fn into_u8(self) -> Result<u8, Error> {
        let w = self as i128;
        if 0 <= w && w <= u8::MAX as i128 {
            Ok(w as u8)
        } else {
            Err(Error::Overflow(self as i128))
        }
    }

    fn into_u16(self) -> Result<u16, Error> {
        let w = self as i128;
        if 0 <= w && w <= u16::MAX as i128 {
            Ok(w as u16)
        } else {
            Err(Error::Overflow(self as i128))
        }
    }

    fn into_u32(self) -> Result<u32, Error> {
        let w = self as i128;
        if 0 <= w && w <= u32::MAX as i128 {
            Ok(w as u32)
        } else {
            Err(Error::Overflow(self as i128))
        }
    }

    fn into_u64(self) -> Result<u64, Error> {
        let w = self as i128;
        if 0 <= w && w <= u64::MAX as i128 {
            Ok(w as u64)
        } else {
            Err(Error::Overflow(self as i128))
        }
    }
}

impl Integer for u16 {
    open spec fn as_int(self) -> int {
        self as int
    }

    open spec fn min_spec() -> int {
        u16::MIN as int
    }

    open spec fn max_spec() -> int {
        u16::MAX as int
    }

    proof fn lemma_range() {
    }

    proof fn lemma_bounds(self) {
    }

    fn zero() -> u16 {
        0
    }

    open spec fn spec_data_type_name() -> Seq<char> {
        "UInt16"@
    }

    fn data_type_name() -> &'static str {
        "UInt16"
    }

    fn from_usize(v: usize) -> u16 {
        v as u16
    }

    fn into_bool(self) -> Result<bool, Error> {
        if self == 0 {
            Ok(false)
        } else if self == 1 {
            Ok(true)
        } else {
            Err(Error::Overflow(self as i128))
        }
    }

    fn into_i8(self) -> Result<i8, Error> {
        let w = self as i128;
        if i8::MIN as i128 <= w && w <= i8::MAX as i128 {
            Ok(w as i8)
        } else {
            Err(Error::Overflow(self as i128))
        }
    }

    fn into_i16(self) -> Result<i16, Error> {
        let w = self as i128;
        if i16::MIN as i128 <= w && w <= i16::MAX as i128 {
            Ok(w as i16)
        } else {
            Err(Error::Overflow(self as i128))
        }
    }

    fn into_i32(self) -> Result<i32, Error> {
        let w = self as i128;
        if i32::MIN as i128 <= w && w <= i32::MAX as i128 {
            Ok(w as i32)
        } else {
            Err(Error::Overflow(self as i128))
        }
    }

    fn into_i64(self) -> Result<i64, Error> {
        let w = self as i128;
        if i64::MIN as i128 <= w && w <= i64::MAX as i128 {
            Ok(w as i64)
        } else {
            Err(Error::Overflow(self as i128))
        }
    }

    fn into_u8(self) -> Result<u8, Error> {
        let w = self as i128;
        if 0 <= w && w <= u8::MAX as i128 {
            Ok(w as u8)
        } else {
            Err(Error::Overflow(self as i128))
        }
    }

    fn into_u16(self) -> Result<u16, Error> {
        let w = self as i128;
        if 0 <= w && w <= u16::MAX as i128 {
            Ok(w as u16)
        } else {
            Err(Error::Overflow(self as i128))
        }
    }

    fn into_u32(self) -> Result<u32, Error> {
        let w = self as i128;
        if 0 <= w && w <= u32::MAX as i128 {
            Ok(w as u32)
        } else {
            Err(Error::Overflow(self as i128))
        }
    }

    fn into_u64(self) -> Result<u64, Error> {
        let w = self as i128;
        if 0 <= w && w <= u64::MAX as i128 {
            Ok(w as u64)
        } else {
            Err(Error::Overflow(self as i128))
        }
    }
}

impl Integer for u32 {
    open spec fn as_int(self) -> int {
        self as int
    }

    open spec fn min_spec() -> int {
        u32::MIN as int
    }

    open spec fn max_spec() -> int {
        u32::MAX as int
    }

    proof fn lemma_range() {
    }

    proof fn lemma_bounds(self) {
    }

    fn zero() -> u32 {
        0
    }

    open spec fn spec_data_type_name() -> Seq<char> {
        "UInt32"@
    }

    fn data_type_name() -> &'static str {
        "UInt32"
    }

    fn from_usize(v: usize) -> u32 {
        v as u32
    }

    fn into_bool(self) -> Result<bool, Error> {
        if self == 0 {
            Ok(false)
        } else if self == 1 {
            Ok(true)
        } else {
            Err(Error::Overflow(self as i128))
        }
    }

    fn into_i8(self) -> Result<i8, Error> {
        let w = self as i128;
        if i8::MIN as i128 <= w && w <= i8::MAX as i128 {
            Ok(w as i8)
        } else {
            Err(Error::Overflow(self as i128))
        }
    }

    fn into_i16(self) -> Result<i16, Error> {
        let w = self as i128;
        if i16::MIN as i128 <= w && w <= i16::MAX as i128 {
            Ok(w as i16)
        } else {
            Err(Error::Overflow(self as i128))
        }
    }

    fn into_i32(self) -> Result<i32, Error> {
        let w = self as i128;
        if i32::MIN as i128 <= w && w <= i32::MAX as i128 {
            Ok(w as i32)
        } else {
            Err(Error::Overflow(self as i128))
        }
    }

    fn into_i64(self) -> Result<i64, Error> {
        let w = self as i128;
        if i64::MIN as i128 <= w && w <= i64::MAX as i128 {
            Ok(w as i64)
        } else {
            Err(Error::Overflow(self as i128))
        }
    }

    fn into_u8(self) -> Result<u8, Error> {
        let w = self as i128;
        if 0 <= w && w <= u8::MAX as i128 {
            Ok(w as u8)
        } else {
            Err(Error::Overflow(self as i128))
        }
    }

    fn into_u16(self) -> Result<u16, Error> {
        let w = self as i128;
        if 0 <= w && w <= u16::MAX as i128 {
            Ok(w as u16)
        } else {
            Err(Error::Overflow(self as i128))
        }
    }

    fn into_u32(self) -> Result<u32, Error> {
        let w = self as i128;
        if 0 <= w && w <= u32::MAX as i128 {
            Ok(w as u32)
        } else {
            Err(Error::Overflow(self as i128))
        }
    }

    fn into_u64(self) -> Result<u64, Error> {
        let w = self as i128;
        if 0 <= w && w <= u64::MAX as i128 {
            Ok(w as u64)
        } else {
            Err(Error::Overflow(self as i128))
        }
    }
}

impl Integer for u64 {
    open spec fn as_int(self) -> int {
        self as int
    }

    open spec fn min_spec() -> int {
        u64::MIN as int
    }

    open spec fn max_spec() -> int {
        u64::MAX as int
    }

    proof fn lemma_range() {
    }

    proof fn lemma_bounds(self) {
    }

    fn zero() -> u64 {
        0
    }

    open spec fn spec_data_type_name() -> Seq<char> {
        "UInt64"@
    }

    fn data_type_name() -> &'static str {
        "UInt64"
    }

    fn from_usize(v: usize) -> u64 {
        v as u64
    }

    fn into_bool(self) -> Result<bool, Error> {
        if self == 0 {
            Ok(false)
        } else if self == 1 {
            Ok(true)
        } else {
            Err(Error::Overflow(self as i128))
        }
    }

    fn into_i8(self) -> Result<i8, Error> {
        let w = self as i128;
        if i8::MIN as i128 <= w && w <= i8::MAX as i128 {
            Ok(w as i8)
        } else {
            Err(Error::Overflow(self as i128))
        }
    }

    fn into_i16(self) -> Result<i16, Error> {
        let w = self as i128;
        if i16::MIN as i128 <= w && w <= i16::MAX as i128 {
            Ok(w as i16)
        } else {
            Err(Error::Overflow(self as i128))
        }
    }

    fn into_i32(self) -> Result<i32, Error> {
        let w = self as i128;
        if i32::MIN as i128 <= w && w <= i32::MAX as i128 {
            Ok(w as i32)
        } else {
            Err(Error::Overflow(self as i128))
        }
    }

    fn into_i64(self) -> Result<i64, Error> {
        let w = self as i128;
        if i64::MIN as i128 <= w && w <= i64::MAX as i128 {
            Ok(w as i64)
        } else {
            Err(Error::Overflow(self as i128))
        }
    }

    fn into_u8(self) -> Result<u8, Error> {
        let w = self as i128;
        if 0 <= w && w <= u8::MAX as i128 {
            Ok(w as u8)
        } else {
            Err(Error::Overflow(self as i128))
        }
    }

    fn into_u16(self) -> Result<u16, Error> {
        let w = self as i128;
        if 0 <= w && w <= u16::MAX as i128 {
            Ok(w as u16)
        } else {
            Err(Error::Overflow(self as i128))
        }
    }

    fn into_u32(self) -> Result<u32, Error> {
        let w = self as i128;
        if 0 <= w && w <= u32::MAX as i128 {
            Ok(w as u32)
        } else {
            Err(Error::Overflow(self as i128))
        }
    }

    fn into_u64(self) -> Result<u64, Error> {
        let w = self as i128;
        if 0 <= w && w <= u64::MAX as i128 {
            Ok(w as u64)
        } else {
            Err(Error::Overflow(self as i128))
        }
    }
}

} // verus!
