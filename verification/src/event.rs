//! Event-dimension validation: the checks a reader must make before an
//! event enters the core.  An event carries a likelihood tensor shape, a
//! prior of length `n`, and a flattened likelihood column; the tensor's
//! first dimension and the column's length must both equal `n`.  A failed
//! check is fatal to the run, so the reader rejects the event before any
//! core computation.

use vstd::prelude::*;

verus! {

/// Why an event was rejected before reaching the core.
#[derive(Clone, Copy, Debug, PartialEq, Eq, Structural)]
pub enum EventShapeError {
    /// The tensor shape is empty or its first dimension differs from the
    /// prior's length.
    ShapeHeadMismatch,
    /// The flattened likelihood column's length differs from the prior's
    /// length.
    LikelihoodLenMismatch,
}

/// Checks an event's dimensions against the prior's length: the tensor
/// shape must start with `prior_len` and the likelihood column must have
/// exactly `prior_len` entries.  The shape is checked first, so an event
/// failing both reports the shape.
pub fn validate_event_dims(a_shape: &Vec<usize>, prior_len: usize, lik_len: usize) -> (r: Result<
    (),
    EventShapeError,
>)
    ensures
        (a_shape@.len() == 0 || a_shape@[0] != prior_len) <==> r == Err::<(), EventShapeError>(
            EventShapeError::ShapeHeadMismatch,
        ),
        (a_shape@.len() > 0 && a_shape@[0] == prior_len && lik_len != prior_len) <==> r == Err::<
            (),
            EventShapeError,
        >(EventShapeError::LikelihoodLenMismatch),
        (a_shape@.len() > 0 && a_shape@[0] == prior_len && lik_len == prior_len) <==> r == Ok::<
            (),
            EventShapeError,
        >(()),
{
    if a_shape.len() == 0 || a_shape[0] != prior_len {
        Err(EventShapeError::ShapeHeadMismatch)
    } else if lik_len != prior_len {
        Err(EventShapeError::LikelihoodLenMismatch)
    } else {
        Ok(())
    }
}

} // verus!
