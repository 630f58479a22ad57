use vstd::prelude::*;
use crate::Error;
use crate::array::{BooleanArray, PrimitiveArray};
use crate::bits::pack_bits;
use crate::integer::Integer;
use crate::validity::{push_validity, push_validity_default, validity_view};

verus! {

/// Accumulates a fixed-width integer column: an optional validity bitmap
/// and one stored value per row (null and default rows store zero).
#[derive(Debug, Clone, PartialEq)]
pub struct PrimitiveBuilder<T: Integer> {
    pub validity: Option<Vec<bool>>,
    pub values: Vec<T>,
}

impl<T: Integer> PrimitiveBuilder<T> {
    pub open spec fn wf(self) -> bool {
        match validity_view(self.validity) {
            Some(s) => s.len() == self.values@.len(),
            None => true,
        }
    }

    pub open spec fn spec_rows(self) -> int {
        self.values@.len() as int
    }

    pub open spec fn spec_is_valid(self, i: int) -> bool {
        match validity_view(self.validity) {
            Some(s) => s[i],
            None => true,
        }
    }

    pub open spec fn spec_value(self, i: int) -> T {
        self.values@[i]
    }

    pub fn new(is_nullable: bool) -> (r: Self)
        ensures
            r.wf(),
            r.spec_rows() == 0,
            r.validity is Some <==> is_nullable,
    {
        PrimitiveBuilder {
            validity: if is_nullable {
                Some(Vec::new())
            } else {
                None
            },
            values: Vec::new(),
        }
    }

    /// Writes a default entry: a null row on a nullable field, a zero
    /// value otherwise.
    pub fn serialize_default(&mut self) -> (r: Result<(), Error>)
        requires
            old(self).wf(),
        ensures
            r == Ok::<(), Error>(()),
            final(self).wf(),
            final(self).validity is Some <==> old(self).validity is Some,
            final(self).spec_rows() == old(self).spec_rows() + 1,
            !(final(self).validity is Some) || !final(self).spec_is_valid(old(self).spec_rows()),
            final(self).spec_value(old(self).spec_rows()).as_int() == 0,
            forall|i: int|
                0 <= i < old(self).spec_rows() ==> final(self).spec_is_valid(i)
                    == old(self).spec_is_valid(i) && final(self).spec_value(i)
                    == old(self).spec_value(i),
    {
        push_validity_default(&mut self.validity);
        self.values.push(T::zero());
        Ok(())
    }

    /// Writes an explicit null row. On a non-nullable field this is a
    /// schema error and the builder is unchanged.
    pub fn serialize_none(&mut self) -> (r: Result<(), Error>)
        requires
            old(self).wf(),
        ensures
            final(self).wf(),
            final(self).validity is Some <==> old(self).validity is Some,
            r is Ok <==> old(self).validity is Some,
            r is Err ==> r == Err::<(), Error>(Error::Schema) && *final(self) == *old(self),
            r is Ok ==> {
                &&& final(self).spec_rows() == old(self).spec_rows() + 1
                &&& !final(self).spec_is_valid(old(self).spec_rows())
                &&& final(self).spec_value(old(self).spec_rows()).as_int() == 0
                &&& forall|i: int|
                    0 <= i < old(self).spec_rows() ==> final(self).spec_is_valid(i)
                        == old(self).spec_is_valid(i) && final(self).spec_value(i)
                        == old(self).spec_value(i)
            },
    {
        push_validity(&mut self.validity, false)?;
        self.values.push(T::zero());
        Ok(())
    }

    /// Writes one value: validity becomes true for the new row and the
    /// value is stored as given (temporal columns store their raw integer
    /// unscaled). This never fails.
    pub fn serialize_value(&mut self, v: T) -> (r: Result<(), Error>)
        requires
            old(self).wf(),
        ensures
            r == Ok::<(), Error>(()),
            final(self).wf(),
            final(self).validity is Some <==> old(self).validity is Some,
            final(self).spec_rows() == old(self).spec_rows() + 1,
            final(self).spec_is_valid(old(self).spec_rows()),
            final(self).spec_value(old(self).spec_rows()) == v,
            forall|i: int|
                0 <= i < old(self).spec_rows() ==> final(self).spec_is_valid(i)
                    == old(self).spec_is_valid(i) && final(self).spec_value(i)
                    == old(self).spec_value(i),
    {
        let _ = push_validity(&mut self.validity, true);
        self.values.push(v);
        Ok(())
    }

    /// Yields the finished column and resets the builder (keeping its
    /// nullability): same values, validity flags packed LSB-first.
    pub fn build_array(&mut self) -> (r: PrimitiveArray<T>)
        requires
            old(self).wf(),
        ensures
            final(self).wf(),
            final(self).spec_rows() == 0,
            final(self).validity is Some <==> old(self).validity is Some,
            r.wf(),
            r.values@ == old(self).values@,
            r.validity is Some <==> old(self).validity is Some,
            forall|i: int|
                0 <= i < old(self).spec_rows() ==> r.spec_is_valid(i) == old(self).spec_is_valid(
                    i,
                ),
    {
        let is_nullable = self.validity.is_some();
        let mut fresh = PrimitiveBuilder::new(is_nullable);
        core::mem::swap(self, &mut fresh);
        let validity = match fresh.validity {
            Some(bits) => Some(pack_bits(&bits)),
            None => None,
        };
        PrimitiveArray { values: fresh.values, validity }
    }
}

/// Accumulates a boolean column: values kept unpacked while building and
/// packed LSB-first when the array is produced.
#[derive(Debug, Clone, PartialEq)]
pub struct BoolBuilder {
    pub validity: Option<Vec<bool>>,
    pub values: Vec<bool>,
}

impl BoolBuilder {
    pub open spec fn wf(self) -> bool {
        match validity_view(self.validity) {
            Some(s) => s.len() == self.values@.len(),
            None => true,
        }
    }

    pub open spec fn spec_rows(self) -> int {
        self.values@.len() as int
    }

    pub open spec fn spec_is_valid(self, i: int) -> bool {
        match validity_view(self.validity) {
            Some(s) => s[i],
            None => true,
        }
    }

    pub open spec fn spec_value(self, i: int) -> bool {
        self.values@[i]
    }

    pub fn new(is_nullable: bool) -> (r: Self)
        ensures
            r.wf(),
            r.spec_rows() == 0,
            r.validity is Some <==> is_nullable,
    {
        BoolBuilder {
            validity: if is_nullable {
                Some(Vec::new())
            } else {
                None
            },
            values: Vec::new(),
        }
    }

    pub fn serialize_default(&mut self) -> (r: Result<(), Error>)
        requires
            old(self).wf(),
        ensures
            r == Ok::<(), Error>(()),
            final(self).wf(),
            final(self).validity is Some <==> old(self).validity is Some,
            final(self).spec_rows() == old(self).spec_rows() + 1,
            !(final(self).validity is Some) || !final(self).spec_is_valid(old(self).spec_rows()),
            final(self).spec_value(old(self).spec_rows()) == false,
            forall|i: int|
                0 <= i < old(self).spec_rows() ==> final(self).spec_is_valid(i)
                    == old(self).spec_is_valid(i) && final(self).spec_value(i)
                    == old(self).spec_value(i),
    {
        push_validity_default(&mut self.validity);
        self.values.push(false);
        Ok(())
    }

    pub fn serialize_none(&mut self) -> (r: Result<(), Error>)
        requires
            old(self).wf(),
        ensures
            final(self).wf(),
            final(self).validity is Some <==> old(self).validity is Some,
            r is Ok <==> old(self).validity is Some,
            r is Err ==> r == Err::<(), Error>(Error::Schema) && *final(self) == *old(self),
            r is Ok ==> {
                &&& final(self).spec_rows() == old(self).spec_rows() + 1
                &&& !final(self).spec_is_valid(old(self).spec_rows())
                &&& final(self).spec_value(old(self).spec_rows()) == false
                &&& forall|i: int|
                    0 <= i < old(self).spec_rows() ==> final(self).spec_is_valid(i)
                        == old(self).spec_is_valid(i) && final(self).spec_value(i)
                        == old(self).spec_value(i)
            },
    {
        push_validity(&mut self.validity, false)?;
        self.values.push(false);
        Ok(())
    }

    pub fn serialize_value(&mut self, v: bool) -> (r: Result<(), Error>)
        requires
            old(self).wf(),
        ensures
            r == Ok::<(), Error>(()),
            final(self).wf(),
            final(self).validity is Some <==> old(self).validity is Some,
            final(self).spec_rows() == old(self).spec_rows() + 1,
            final(self).spec_is_valid(old(self).spec_rows()),
            final(self).spec_value(old(self).spec_rows()) == v,
            forall|i: int|
                0 <= i < old(self).spec_rows() ==> final(self).spec_is_valid(i)
                    == old(self).spec_is_valid(i) && final(self).spec_value(i)
                    == old(self).spec_value(i),
    {
        let _ = push_validity(&mut self.validity, true);
        self.values.push(v);
        Ok(())
    }

    /// Yields the finished column and resets the builder: `len` rows, the
    /// values packed LSB-first, the validity flags likewise.
    pub fn build_array(&mut self) -> (r: BooleanArray)
        requires
            old(self).wf(),
        ensures
            final(self).wf(),
            final(self).spec_rows() == 0,
            final(self).validity is Some <==> old(self).validity is Some,
            r.wf(),
            r.len == old(self).spec_rows(),
            forall|i: int|
                0 <= i < old(self).spec_rows() ==> crate::bits::spec_bit(r.values@, i) == old(
                    self,
                ).spec_value(i),
            r.validity is Some <==> old(self).validity is Some,
            forall|i: int|
                0 <= i < old(self).spec_rows() ==> r.spec_is_valid(i) == old(self).spec_is_valid(
                    i,
                ),
    {
        let is_nullable = self.validity.is_some();
        let mut fresh = BoolBuilder::new(is_nullable);
        core::mem::swap(self, &mut fresh);
        let len = fresh.values.len();
        let packed = pack_bits(&fresh.values);
        let validity = match fresh.validity {
            Some(bits) => Some(pack_bits(&bits)),
            None => None,
        };
        BooleanArray { len, values: packed, validity }
    }
}

} // verus!
