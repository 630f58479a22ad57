use vstd::prelude::*;
use crate::Error;

verus! {

/// The row-validity flags as a sequence, or `None` for a non-nullable
/// column that keeps no bitmap.
pub open spec fn validity_view(v: Option<Vec<bool>>) -> Option<Seq<bool>> {
    match v {
        Some(vec) => Some(vec@),
        None => None,
    }
}

/// Records one row's validity flag. A non-nullable column (no bitmap)
/// accepts only valid rows: recording a null there is a schema error and
/// changes nothing.
pub fn push_validity(validity: &mut Option<Vec<bool>>, value: bool) -> (r: Result<(), Error>)
    ensures
        match validity_view(*old(validity)) {
            Some(s) => r == Ok::<(), Error>(()) && validity_view(*final(validity)) == Some(
                s.push(value),
            ),
            None => {
                &&& *final(validity) == *old(validity)
                &&& if value {
                    r == Ok::<(), Error>(())
                } else {
                    r == Err::<(), Error>(Error::Schema)
                }
            },
        },
{
    match validity {
        Some(v) => {
            v.push(value);
            Ok(())
        },
        None => {
            if value {
                Ok(())
            } else {
                Err(Error::Schema)
            }
        },
    }
}

/// Records one row's validity flag for a default entry: a nullable column
/// gets a null bit; a non-nullable column records nothing.
pub fn push_validity_default(validity: &mut Option<Vec<bool>>)
    ensures
        match validity_view(*old(validity)) {
            Some(s) => validity_view(*final(validity)) == Some(s.push(false)),
            None => *final(validity) == *old(validity),
        },
{
    match validity {
        Some(v) => {
            v.push(false);
        },
        None => {},
    }
}

} // verus!
