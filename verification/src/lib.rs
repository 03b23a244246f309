//! Run-time checked handles to a value that lives in a bounded scope.
//!
//! An anchor captures a reference and owns the [`slot::Slot`] that stores it.
//! Portals and weak portals are handles to that slot: they can be kept by
//! logic whose lifetime the compiler cannot bound, and every access through
//! them is checked against the slot's bookkeeping when it happens. The anchor
//! alone retires the slot, and only when no portal is left.
//!
//! The bookkeeping is explicit. A handle holds no pointer to the slot: an
//! operation through a handle names the anchor that it acts on, giving a
//! handle up is a call of `release`, and retiring an anchor is a call of
//! `retire`. Nothing here blocks or panics: an operation that cannot go
//! through answers with an [`error::Error`], and where the error asks the
//! caller to wait, waiting is the caller's part.
//!
//! - [`state`] describes a slot as a mathematical value, with the transition
//!   that each operation makes.
//! - [`slot`] is the slot itself, for any sharing strategy and scheduling
//!   model.
//! - [`rc`] holds the anchors and portals for one thread, [`sync`] those for
//!   parallel threads; [`handle`] says what their handles have in common.
//! - [`laws`] and [`history`] state what holds across operations: what a
//!   portal reads, when retirement goes through, that retirement and poison
//!   are for good.

pub mod error;
pub mod handle;
pub mod history;
pub mod laws;
pub mod rc;
pub mod slot;
pub mod state;
pub mod sync;

mod pipe;
