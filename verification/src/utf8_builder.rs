use vstd::prelude::*;
use vstd::string::StringSliceAdditionalSpecFns;
use crate::Error;
use crate::array::Utf8Array;
use crate::bits::pack_bits;
use crate::offsets::{MutableOffsetBuffer, Offset};
use crate::validity::{push_validity, push_validity_default, validity_view};

verus! {

/// Accumulates a UTF-8 string column: an optional validity bitmap (present
/// only for a nullable field), an offsets buffer, and the concatenated
/// value bytes.
#[derive(Debug, Clone, PartialEq)]
pub struct Utf8Builder<O: Offset> {
    pub validity: Option<Vec<bool>>,
    pub offsets: MutableOffsetBuffer<O>,
    pub buffer: Vec<u8>,
}

impl<O: Offset> Utf8Builder<O> {
    /// Well-formedness: offsets well-formed, the bitmap (when kept) has one
    /// flag per row, and the last offset is the end of the value bytes.
    pub open spec fn wf(self) -> bool {
        &&& self.offsets.wf()
        &&& match validity_view(self.validity) {
            Some(s) => s.len() == self.offsets.spec_rows(),
            None => true,
        }
        &&& self.offsets.spec_end() == self.buffer@.len()
    }

    /// The number of rows written so far.
    pub open spec fn spec_rows(self) -> int {
        self.offsets.spec_rows()
    }

    /// Whether row `i` was written as a value (as opposed to a null or
    /// default entry). Without a bitmap every row is valid.
    pub open spec fn spec_is_valid(self, i: int) -> bool {
        match validity_view(self.validity) {
            Some(s) => s[i],
            None => true,
        }
    }

    /// The bytes of row `i`.
    pub open spec fn spec_row_data(self, i: int) -> Seq<u8> {
        self.buffer@.subrange(self.offsets.view_ints()[i], self.offsets.view_ints()[i + 1])
    }

    pub fn new(is_nullable: bool) -> (r: Self)
        ensures
            r.wf(),
            r.spec_rows() == 0,
            r.validity is Some <==> is_nullable,
    {
        Utf8Builder {
            validity: if is_nullable {
                Some(Vec::new())
            } else {
                None
            },
            offsets: MutableOffsetBuffer::new(),
            buffer: Vec::new(),
        }
    }

    /// Writes a default entry: an invalid (null) row on a nullable field, a
    /// zero-length value otherwise. The value buffer is untouched.
    pub fn serialize_default(&mut self) -> (r: Result<(), Error>)
        requires
            old(self).wf(),
        ensures
            r == Ok::<(), Error>(()),
            final(self).wf(),
            final(self).spec_rows() == old(self).spec_rows() + 1,
            final(self).validity is Some <==> old(self).validity is Some,
            !(final(self).validity is Some) || !final(self).spec_is_valid(old(self).spec_rows()),
            final(self).spec_row_data(old(self).spec_rows()) =~= Seq::<u8>::empty(),
            forall|i: int|
                0 <= i < old(self).spec_rows() ==> final(self).spec_is_valid(i)
                    == old(self).spec_is_valid(i) && final(self).spec_row_data(i)
                    =~= old(self).spec_row_data(i),
            final(self).buffer@ == old(self).buffer@,
    {
        push_validity_default(&mut self.validity);
        self.offsets.push_current_items();
        Ok(())
    }

    /// Writes an explicit null row. On a non-nullable field this is a
    /// schema error and the builder is unchanged.
    pub fn serialize_none(&mut self) -> (r: Result<(), Error>)
        requires
            old(self).wf(),
        ensures
            final(self).wf(),
            r is Ok <==> old(self).validity is Some,
            r is Err ==> r == Err::<(), Error>(Error::Schema) && *final(self) == *old(self),
            r is Ok ==> {
                &&& final(self).spec_rows() == old(self).spec_rows() + 1
                &&& final(self).validity is Some <==> old(self).validity is Some
                &&& !final(self).spec_is_valid(old(self).spec_rows())
                &&& final(self).spec_row_data(old(self).spec_rows()) =~= Seq::<u8>::empty()
                &&& forall|i: int|
                    0 <= i < old(self).spec_rows() ==> final(self).spec_is_valid(i)
                        == old(self).spec_is_valid(i) && final(self).spec_row_data(i)
                        =~= old(self).spec_row_data(i)
                &&& final(self).buffer@ == old(self).buffer@
            },
    {
        push_validity(&mut self.validity, false)?;
        self.offsets.push_current_items();
        Ok(())
    }

    /// Writes one string value: validity becomes true for the new row, the
    /// offsets advance by the byte length, and the bytes are appended.
    /// Fails with an overflow error when the new end of the value bytes
    /// would not fit the offset type; the builder is then unchanged.
    pub fn serialize_str(&mut self, v: &str) -> (r: Result<(), Error>)
        requires
            old(self).wf(),
        ensures
            final(self).wf(),
            final(self).validity is Some <==> old(self).validity is Some,
            match r {
                Ok(()) => {
                    &&& old(self).buffer@.len() + v.spec_bytes().len() <= O::max_spec()
                    &&& final(self).spec_rows() == old(self).spec_rows() + 1
                    &&& final(self).spec_is_valid(old(self).spec_rows())
                    &&& final(self).spec_row_data(old(self).spec_rows()) =~= v.spec_bytes()
                    &&& forall|i: int|
                        0 <= i < old(self).spec_rows() ==> final(self).spec_is_valid(i)
                            == old(self).spec_is_valid(i) && final(self).spec_row_data(i)
                            =~= old(self).spec_row_data(i)
                },
                Err(e) => {
                    &&& (v.spec_bytes().len() <= usize::MAX ==> e == Error::Overflow(
                        (old(self).buffer@.len() + v.spec_bytes().len()) as i128,
                    ))
                    &&& (e matches Error::Overflow(_))
                    &&& old(self).buffer@.len() + v.spec_bytes().len() > O::max_spec()
                    &&& *final(self) == *old(self)
                },
            },
    {
        let n = v.len();
        let last_end: usize = self.buffer.len();
        proof {
            assert(self.offsets.spec_end() == last_end);
        }
        // Check for offset overflow before touching any buffer, so a failed
        // push leaves the builder usable for inspection by the caller.
        match self.offsets.push(n) {
            Ok(()) => {},
            Err(e) => {
                proof {
                    assert(old(self).offsets.spec_end() == old(self).buffer@.len());
                }
                return Err(e);
            },
        }
        let _ = push_validity(&mut self.validity, true);
        let bytes = v.as_bytes();
        let ghost offs_snapshot = self.offsets;
        let ghost val_snapshot = self.validity;
        let mut k: usize = 0;
        proof {
            assert(self.buffer@ =~= old(self).buffer@ + bytes@.subrange(0, 0));
        }
        while k < bytes.len()
            invariant
                k <= bytes@.len(),
                self.buffer@ == old(self).buffer@ + bytes@.subrange(0, k as int),
                self.offsets == offs_snapshot,
                self.validity == val_snapshot,
            decreases bytes@.len() - k,
        {
            self.buffer.push(bytes[k]);
            proof {
                assert(self.buffer@ =~= old(self).buffer@ + bytes@.subrange(0, k + 1));
            }
            k += 1;
        }
        proof {
            assert(self.buffer@ =~= old(self).buffer@ + v.spec_bytes());
        }
        proof {
            lemma_subranges_after_extend(
                old(self).buffer@,
                v.spec_bytes(),
                old(self).offsets.view_ints(),
            );
        }
        Ok(())
    }

    /// Yields the current column without disturbing the builder: same
    /// offsets, same bytes, and the validity flags packed LSB-first.
    pub fn to_array(&self) -> (r: Utf8Array<O>)
        requires
            self.wf(),
        ensures
            r.wf(),
            r.spec_rows() == self.spec_rows(),
            r.offset_ints() == self.offsets.view_ints(),
            r.data@ == self.buffer@,
            r.validity is Some <==> self.validity is Some,
            forall|i: int|
                0 <= i < self.spec_rows() ==> r.spec_is_valid(i) == self.spec_is_valid(i)
                    && r.spec_row_data(i) =~= self.spec_row_data(i),
    {
        let offsets = crate::util::copy_vec(&self.offsets.offsets);
        let data = crate::util::copy_vec(&self.buffer);
        let validity = match &self.validity {
            Some(bits) => Some(pack_bits(bits)),
            None => None,
        };
        Utf8Array { offsets, data, validity }
    }

    /// Yields the finished column and resets the builder to its freshly
    /// constructed state (keeping its nullability). The finished column
    /// reproduces the builder's rows exactly: same offsets, same bytes,
    /// and the validity flags packed LSB-first.
    pub fn build_array(&mut self) -> (r: Utf8Array<O>)
        requires
            old(self).wf(),
        ensures
            final(self).wf(),
            final(self).spec_rows() == 0,
            final(self).validity is Some <==> old(self).validity is Some,
            r.wf(),
            r.spec_rows() == old(self).spec_rows(),
            r.offset_ints() == old(self).offsets.view_ints(),
            r.data@ == old(self).buffer@,
            r.validity is Some <==> old(self).validity is Some,
            forall|i: int|
                0 <= i < old(self).spec_rows() ==> r.spec_is_valid(i) == old(
                    self,
                ).spec_is_valid(i) && r.spec_row_data(i) =~= old(self).spec_row_data(i),
    {
        let is_nullable = self.validity.is_some();
        let mut fresh = Utf8Builder::new(is_nullable);
        core::mem::swap(self, &mut fresh);
        let validity = match fresh.validity {
            Some(bits) => Some(pack_bits(&bits)),
            None => None,
        };
        Utf8Array { offsets: fresh.offsets.offsets, data: fresh.buffer, validity }
    }
}

/// Appending bytes to the value buffer does not disturb the value ranges
/// of the rows already written.
proof fn lemma_subranges_after_extend(buf: Seq<u8>, ext: Seq<u8>, offs: Seq<int>)
    requires
        forall|i: int| 0 <= i < offs.len() ==> 0 <= #[trigger] offs[i] <= buf.len(),
    ensures
        forall|i: int, j: int|
            0 <= i < offs.len() && 0 <= j < offs.len() && offs[i] <= offs[j] ==> (buf
                + ext).subrange(offs[i], offs[j]) =~= buf.subrange(offs[i], offs[j]),
{
}

} // verus!
