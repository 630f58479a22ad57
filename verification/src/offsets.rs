use vstd::prelude::*;
use crate::Error;

verus! {

/// An Arrow offset type: a signed integer wide enough to index the value
/// buffer of a variable-length column (32-bit for `Utf8`/`Binary`, 64-bit
/// for the `Large` variants).
pub trait Offset: Sized + Copy {
    /// The mathematical value of the offset.
    spec fn as_int(self) -> int;

    /// The largest value the offset type can hold.
    spec fn max_spec() -> int;

    /// The offset type's range sits within 64 signed bits.
    proof fn lemma_max_nonneg()
        ensures
            0 <= Self::max_spec() <= i64::MAX,
    ;

    fn zero() -> (r: Self)
        ensures
            r.as_int() == 0,
    ;

    /// Adds a byte count to the offset, refusing to exceed the offset
    /// type's range.
    fn checked_add_len(self, v: usize) -> (r: Option<Self>)
        requires
            0 <= self.as_int(),
        ensures
            match r {
                Some(o) => o.as_int() == self.as_int() + v && o.as_int() <= Self::max_spec(),
                None => self.as_int() + v > Self::max_spec(),
            },
    ;

    fn to_usize(self) -> (r: usize)
        requires
            0 <= self.as_int() <= usize::MAX,
        ensures
            r == self.as_int(),
    ;

    fn to_i128(self) -> (r: i128)
        ensures
            r == self.as_int(),
    ;
}

impl Offset for i32 {
    open spec fn as_int(self) -> int {
        self as int
    }

    open spec fn max_spec() -> int {
        i32::MAX as int
    }

    proof fn lemma_max_nonneg() {
    }

    fn zero() -> i32 {
        0
    }

    fn checked_add_len(self, v: usize) -> Option<i32> {
        let room = (i32::MAX - self) as usize;
        if v <= room {
            Some(self + v as i32)
        } else {
            None
        }
    }

    fn to_usize(self) -> usize {
        self as usize
    }

    fn to_i128(self) -> i128 {
        self as i128
    }
}

impl Offset for i64 {
    open spec fn as_int(self) -> int {
        self as int
    }

    open spec fn max_spec() -> int {
        i64::MAX as int
    }

    proof fn lemma_max_nonneg() {
    }

    fn zero() -> i64 {
        0
    }

    fn checked_add_len(self, v: usize) -> Option<i64> {
        if (v as u128) <= ((i64::MAX - self) as u128) {
            Some(self + v as i64)
        } else {
            None
        }
    }

    fn to_usize(self) -> usize {
        self as usize
    }

    fn to_i128(self) -> i128 {
        self as i128
    }
}

/// The growable offsets buffer of a variable-length column. It always
/// holds one more entry than the number of rows written; entry 0 is 0 and
/// the entries never decrease.
#[derive(Debug, Clone, PartialEq)]
pub struct MutableOffsetBuffer<O: Offset> {
    pub offsets: Vec<O>,
}

impl<O: Offset> MutableOffsetBuffer<O> {
    /// The offsets as mathematical integers.
    pub open spec fn view_ints(self) -> Seq<int> {
        self.offsets@.map(|_i: int, o: O| o.as_int())
    }

    /// Well-formedness: non-empty, starts at zero, monotonically
    /// non-decreasing, and within the offset type's range.
    pub open spec fn wf(self) -> bool {
        &&& self.offsets@.len() >= 1
        &&& self.view_ints()[0] == 0
        &&& forall|i: int, j: int|
            0 <= i <= j < self.view_ints().len() ==> self.view_ints()[i] <= self.view_ints()[j]
        &&& forall|i: int|
            0 <= i < self.view_ints().len() ==> 0 <= #[trigger] self.view_ints()[i]
                <= O::max_spec()
    }

    /// The number of rows recorded so far.
    pub open spec fn spec_rows(self) -> int {
        self.offsets@.len() - 1
    }

    /// The byte position where the next value would start.
    pub open spec fn spec_end(self) -> int {
        self.view_ints()[self.view_ints().len() - 1]
    }

    pub fn new() -> (r: Self)
        ensures
            r.wf(),
            r.spec_rows() == 0,
            r.spec_end() == 0,
    {
        let mut offsets: Vec<O> = Vec::new();
        offsets.push(O::zero());
        let r = MutableOffsetBuffer { offsets };
        proof {
            O::lemma_max_nonneg();
            assert(r.view_ints().len() == 1);
            assert(r.view_ints()[0] == 0);
        }
        r
    }

    pub fn len(&self) -> (r: usize)
        requires
            self.wf(),
        ensures
            r == self.spec_rows(),
    {
        self.offsets.len() - 1
    }

    /// Records a row of `num_items` bytes, failing with an overflow error —
    /// and leaving the buffer unchanged — when the new end would not fit
    /// the offset type.
    pub fn push(&mut self, num_items: usize) -> (r: Result<(), Error>)
        requires
            old(self).wf(),
        ensures
            final(self).wf(),
            match r {
                Ok(()) => {
                    &&& final(self).view_ints() == old(self).view_ints().push(
                        old(self).spec_end() + num_items,
                    )
                    &&& final(self).spec_rows() == old(self).spec_rows() + 1
                    &&& final(self).spec_end() == old(self).spec_end() + num_items
                },
                Err(e) => {
                    &&& e == Error::Overflow((old(self).spec_end() + num_items) as i128)
                    &&& old(self).spec_end() + num_items > O::max_spec()
                    &&& *final(self) == *old(self)
                },
            },
    {
        let last: O = self.offsets[self.offsets.len() - 1];
        proof {
            O::lemma_max_nonneg();
            assert(last.as_int() == self.view_ints()[self.view_ints().len() - 1]);
        }
        match last.checked_add_len(num_items) {
            Some(next) => {
                self.offsets.push(next);
                proof {
                    assert(final(self).view_ints() =~= old(self).view_ints().push(
                        old(self).spec_end() + num_items,
                    ));
                }
                Ok(())
            },
            None => Err(Error::Overflow(last.to_i128() + num_items as i128)),
        }
    }

    /// Records a zero-length row (used for null and default entries): the
    /// current end is repeated. This never fails.
    pub fn push_current_items(&mut self)
        requires
            old(self).wf(),
        ensures
            final(self).wf(),
            final(self).view_ints() == old(self).view_ints().push(old(self).spec_end()),
            final(self).spec_rows() == old(self).spec_rows() + 1,
            final(self).spec_end() == old(self).spec_end(),
    {
        let last: O = self.offsets[self.offsets.len() - 1];
        self.offsets.push(last);
        proof {
            assert(final(self).view_ints() =~= old(self).view_ints().push(old(self).spec_end()));
        }
    }
}

} // verus!
