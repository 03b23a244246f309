//! The state of a slot as a mathematical value, and its transitions.
//!
//! Every operation of the library is one of the transitions below: a function
//! that says what the operation answers, and one that says what the slot is
//! afterwards.

use vstd::prelude::*;

use crate::error::Error;

verus! {

/// How a slot lets its contents be shared. Chosen when the slot is made.
#[derive(Clone, Copy, Debug, PartialEq, Eq, Structural)]
pub enum Sharing {
    /// Any number of readers, no writer, no lock and nothing to poison.
    ReadOnly,
    /// Any number of readers or one writer.
    ReadWrite,
    /// One accessor at a time.
    Exclusive,
}

/// The scheduling model that a slot is used under.
#[derive(Clone, Copy, Debug, PartialEq, Eq, Structural)]
pub enum Context {
    /// Parallel threads: a conflicting access waits for the holder.
    Threaded,
    /// One thread, cooperative: a conflicting access fails at once.
    Cooperative,
}

/// What a slot is, as a mathematical value.
pub struct SlotState<P> {
    /// Which slot this is. Handles carry the same mark, and nothing else is
    /// known of it.
    pub id: int,
    /// The sharing strategy.
    pub sharing: Sharing,
    /// The scheduling model.
    pub context: Context,
    /// The captured reference while the slot is present, `None` once the
    /// anchor has retired it.
    pub contents: Option<P>,
    /// Whether access is refused for good.
    pub poisoned: bool,
    /// The strong handles to the slot: the anchor's own and one per portal.
    pub strong: nat,
    /// The read guards that are live.
    pub readers: nat,
    /// Whether a write guard is live.
    pub writer: bool,
}

impl<P> SlotState<P> {
    /// The slot of a new anchor over `reference`: present, held by the
    /// anchor alone.
    pub open spec fn fresh(id: int, sharing: Sharing, context: Context, reference: P) -> Self {
        SlotState {
            id,
            sharing,
            context,
            contents: Some(reference),
            poisoned: false,
            strong: 1,
            readers: 0,
            writer: false,
        }
    }

    /// The slot is present: the anchor has not retired it.
    pub open spec fn is_active(self) -> bool {
        self.contents is Some
    }

    /// A guard is live.
    pub open spec fn borrowed(self) -> bool {
        self.readers > 0 || self.writer
    }

    /// The portals that exist: the strong handles other than the anchor's.
    pub open spec fn portals(self) -> nat {
        if self.strong >= 1 {
            (self.strong - 1) as nat
        } else {
            0
        }
    }

    /// What every slot satisfies: it is present exactly while a strong handle
    /// exists, a writer excludes readers, guards are live on a present slot
    /// only, a poisoned slot is present and has no guard, a read-only slot
    /// has no guard and is never poisoned, an exclusive one has no reader.
    pub open spec fn wf(self) -> bool {
        &&& self.contents is Some <==> self.strong >= 1
        &&& self.writer ==> self.readers == 0
        &&& self.borrowed() ==> self.contents is Some
        &&& self.poisoned ==> self.contents is Some && !self.borrowed()
        &&& self.sharing is ReadOnly ==> !self.poisoned && !self.borrowed()
        &&& self.sharing is Exclusive ==> self.readers == 0
    }

    /// What minting a portal answers: a portal while the slot is present,
    /// `Dropped` after retirement.
    pub open spec fn mint_result(self) -> Result<(), Error> {
        if self.is_active() {
            Ok(())
        } else {
            Err(Error::Dropped)
        }
    }

    /// The slot after minting a portal: one more strong handle, if it is
    /// present.
    pub open spec fn minted(self) -> Self {
        if self.is_active() {
            SlotState { strong: self.strong + 1, ..self }
        } else {
            self
        }
    }

    /// The slot after a portal is given up: one strong handle fewer. The
    /// anchor's own handle is no portal and stays.
    pub open spec fn released(self) -> Self {
        if self.strong > 1 {
            SlotState { strong: (self.strong - 1) as nat, ..self }
        } else {
            self
        }
    }

    /// How an access that meets a guard in its way fails: a threaded caller
    /// waits, a cooperative one is refused.
    pub open spec fn conflict(self) -> Error {
        match self.context {
            Context::Threaded => Error::WouldBlock,
            Context::Cooperative => Error::Borrowed,
        }
    }

    /// What asking for a read guard answers.
    pub open spec fn read_result(self) -> Result<(), Error> {
        if !self.is_active() {
            Err(Error::Dropped)
        } else if self.writer {
            Err(self.conflict())
        } else if self.poisoned {
            Err(Error::Poisoned)
        } else {
            Ok(())
        }
    }

    /// The slot after asking for a read guard: one more reader if the guard
    /// was granted.
    pub open spec fn read_acquired(self) -> Self {
        if self.read_result() is Ok {
            SlotState { readers: self.readers + 1, ..self }
        } else {
            self
        }
    }

    /// What asking for a write guard answers.
    pub open spec fn write_result(self) -> Result<(), Error> {
        if !self.is_active() {
            Err(Error::Dropped)
        } else if self.borrowed() {
            Err(self.conflict())
        } else if self.poisoned {
            Err(Error::Poisoned)
        } else {
            Ok(())
        }
    }

    /// The slot after asking for a write guard: a writer if the guard was
    /// granted.
    pub open spec fn write_acquired(self) -> Self {
        if self.write_result() is Ok {
            SlotState { writer: true, ..self }
        } else {
            self
        }
    }

    /// The slot after a read guard is released.
    pub open spec fn read_released(self) -> Self {
        if self.readers > 0 {
            SlotState { readers: (self.readers - 1) as nat, ..self }
        } else {
            self
        }
    }

    /// The slot after the write guard is released. `failed` says that the
    /// holder's code failed while it held the guard: that poisons the slot.
    pub open spec fn write_released(self, failed: bool) -> Self {
        if self.writer {
            SlotState { writer: false, poisoned: self.poisoned || failed, ..self }
        } else {
            self
        }
    }

    /// What reading the contents answers: the captured reference, or
    /// `Dropped` once it is gone.
    pub open spec fn value(self) -> Result<P, Error> {
        match self.contents {
            Some(reference) => Ok(reference),
            None => Err(Error::Dropped),
        }
    }

    /// The slot with `reference` in place of its contents.
    pub open spec fn written(self, reference: P) -> Self {
        SlotState { contents: Some(reference), ..self }
    }

    /// How retirement fails while a guard is live: a threaded anchor waits
    /// for the guard, a cooperative one cannot know who holds it and blocks
    /// for good.
    pub open spec fn barrier(self) -> Error {
        match self.context {
            Context::Threaded => Error::WouldBlock,
            Context::Cooperative => Error::Deadlock,
        }
    }

    /// How retirement fails while a portal exists and no guard is live. A
    /// portal of a cooperative read-only slot is always an active borrow, so
    /// that anchor blocks for good; every other anchor reports the portal.
    pub open spec fn refusal(self) -> Error {
        if self.sharing is ReadOnly && self.context is Cooperative {
            Error::Deadlock
        } else {
            Error::StillInUse
        }
    }

    /// What retiring the slot answers: the contents when it goes through,
    /// `None` when the slot was retired before.
    pub open spec fn retire_result(self) -> Result<Option<P>, Error> {
        if !self.is_active() {
            Ok(None)
        } else if self.borrowed() {
            Err(self.barrier())
        } else if self.strong > 1 {
            Err(self.refusal())
        } else if self.poisoned {
            Err(Error::Poisoned)
        } else {
            Ok(self.contents)
        }
    }

    /// The slot after a retirement attempt: absent when it went through;
    /// poisoned when a slot that can be written was found still in use;
    /// unchanged otherwise.
    pub open spec fn retired(self) -> Self {
        match self.retire_result() {
            Ok(_) => SlotState { contents: None, strong: 0, ..self },
            Err(Error::StillInUse) => SlotState {
                poisoned: self.poisoned || !(self.sharing is ReadOnly),
                ..self
            },
            Err(_) => self,
        }
    }
}

/// What a read that hands out a borrow has answered, as a value.
pub open spec fn read_as<P>(result: Result<&P, Error>) -> Result<P, Error> {
    match result {
        Ok(reference) => Ok(*reference),
        Err(error) => Err(error),
    }
}

} // verus!
