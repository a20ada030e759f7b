use vstd::prelude::*;

use crate::error::APIError;

verus! {

/// The capability to duplicate a request for a retried attempt: either an
/// equivalent, structurally independent copy, or an explicit failure for
/// requests that cannot be replayed.
pub trait TryClone: Sized {
    fn try_clone(&self) -> Result<Self, APIError>;
}

} // verus!
