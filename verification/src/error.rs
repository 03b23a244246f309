//! The ways in which an operation on a slot fails.

use vstd::prelude::*;

verus! {

/// Why an operation on a slot did not go through.
///
/// Each kind is a protocol-usage error that surfaces at the point of the
/// violation; nothing is retried and nothing recovers by itself.
#[derive(Clone, Copy, Debug, PartialEq, Eq, Structural)]
pub enum Error {
    /// The anchor was retired while at least one portal still existed.
    StillInUse,
    /// A write guard was released during a failure, or the anchor found a
    /// portal left at retirement: the slot refuses access from then on.
    Poisoned,
    /// The anchor has retired the slot already.
    Dropped,
    /// A cooperative anchor was retired while a reference to its value may
    /// still be in use. No recovery is safe: going on would free memory that
    /// is being read. The caller must not return from the retirement; it
    /// blocks for good, or ends the process, as it chooses.
    Deadlock,
    /// A cooperative slot is borrowed in a way that excludes the access asked
    /// for.
    Borrowed,
    /// A threaded slot is locked in a way that excludes the access asked for:
    /// the caller waits until the holder lets go, and asks again.
    WouldBlock,
}

impl Error {
    /// The text that reports this failure.
    pub open spec fn text(self) -> Seq<char> {
        match self {
            Error::StillInUse => "Anchor still in use (at least one portal exists)"@,
            Error::Poisoned => "Anchor poisoned"@,
            Error::Dropped => "Anchor dropped"@,
            Error::Deadlock => "Anchor dropped while borrowed from"@,
            Error::Borrowed => "Anchor already borrowed"@,
            Error::WouldBlock => "Anchor locked"@,
        }
    }

    /// Whether this failure tells the caller to wait rather than to give up.
    pub open spec fn blocks(self) -> bool {
        self is Deadlock || self is WouldBlock
    }

    /// Returns the text that reports this failure.
    pub fn message(&self) -> (text: &'static str)
        ensures
            text@ == self.text(),
    {
        match self {
            Error::StillInUse => "Anchor still in use (at least one portal exists)",
            Error::Poisoned => "Anchor poisoned",
            Error::Dropped => "Anchor dropped",
            Error::Deadlock => "Anchor dropped while borrowed from",
            Error::Borrowed => "Anchor already borrowed",
            Error::WouldBlock => "Anchor locked",
        }
    }

    /// Tells whether the caller has to wait: for good after `Deadlock`, until
    /// the holder lets go after `WouldBlock`.
    pub fn is_blocking(&self) -> (blocking: bool)
        ensures
            blocking == self.blocks(),
    {
        match self {
            Error::Deadlock => true,
            Error::WouldBlock => true,
            _ => false,
        }
    }
}

} // verus!
