//! What the handles to a slot have in common.

use vstd::prelude::*;

use crate::error::Error;

verus! {

/// A handle to a slot: an anchor's portal, a weak portal or a guard.
///
/// A handle is a capability. It holds no state of its own: the slot counts
/// what exists, and a handle carries the mark of the slot that it was made
/// for.
pub trait Handle {
    /// The mark of the slot that this handle belongs to.
    spec fn slot(&self) -> int;
}

/// `result` hands out a handle to the slot marked `slot` exactly where
/// `answer` is a success, and reports the error of `answer` otherwise.
pub open spec fn granted<H: Handle>(
    result: Result<H, Error>,
    answer: Result<(), Error>,
    slot: int,
) -> bool {
    match result {
        Ok(handle) => answer is Ok && handle.slot() == slot,
        Err(error) => answer == Err::<(), Error>(error),
    }
}

/// `result` holds a handle to the slot marked `slot` exactly where `answer`
/// is a success.
pub open spec fn offered<H: Handle>(
    result: Option<H>,
    answer: Result<(), Error>,
    slot: int,
) -> bool {
    match result {
        Some(handle) => answer is Ok && handle.slot() == slot,
        None => answer is Err,
    }
}

} // verus!
