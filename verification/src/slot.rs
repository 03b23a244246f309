//! The slot: the cell that an anchor and its portals share.

use vstd::prelude::*;

use crate::error::Error;
use crate::pipe::pipe;
use crate::state::{read_as, Context, Sharing, SlotState};

verus! {

/// The cell that holds the captured reference, with the bookkeeping that
/// every access is checked against.
///
/// The anchor owns the slot. Portals and guards are handles to it: what they
/// may do is decided here, from the counts and flags alone.
pub struct Slot<P> {
    id: Ghost<int>,
    sharing: Sharing,
    context: Context,
    contents: Option<P>,
    poisoned: bool,
    strong: usize,
    readers: usize,
    writer: bool,
}

impl<P> View for Slot<P> {
    type V = SlotState<P>;

    closed spec fn view(&self) -> SlotState<P> {
        SlotState {
            id: self.id@,
            sharing: self.sharing,
            context: self.context,
            contents: self.contents,
            poisoned: self.poisoned,
            strong: self.strong as nat,
            readers: self.readers as nat,
            writer: self.writer,
        }
    }
}

/// Turns the poison flag of a slot that nobody else holds into the answer
/// that its retirement gives.
fn poison_verdict(poisoned: bool) -> (verdict: Result<(), Error>)
    ensures
        verdict == (if poisoned {
            Err::<(), Error>(Error::Poisoned)
        } else {
            Ok::<(), Error>(())
        }),
{
    if poisoned {
        Err(Error::Poisoned)
    } else {
        Ok(())
    }
}

impl<P> Slot<P> {
    /// Makes the slot of a new anchor over `reference`.
    pub fn new(sharing: Sharing, context: Context, reference: P) -> (slot: Self)
        ensures
            slot@ == SlotState::fresh(slot@.id, sharing, context, reference),
            slot@.wf(),
    {
        Slot {
            id: Ghost(arbitrary()),
            sharing,
            context,
            contents: Some(reference),
            poisoned: false,
            strong: 1,
            readers: 0,
            writer: false,
        }
    }

    /// The mark that the handles to this slot carry.
    pub fn mark(&self) -> (mark: Ghost<int>)
        ensures
            mark@ == self@.id,
    {
        self.id
    }

    /// Counts a new portal, if the slot is present.
    ///
    /// This is what an anchor does to mint a portal, a portal to clone
    /// itself, and a weak portal to upgrade: each succeeds exactly while the
    /// anchor has not retired the slot, poisoned or not.
    pub fn mint(&mut self) -> (result: Result<(), Error>)
        requires
            old(self)@.wf(),
            old(self)@.strong < usize::MAX,
        ensures
            final(self)@.wf(),
            result == old(self)@.mint_result(),
            final(self)@ == old(self)@.minted(),
    {
        if self.contents.is_none() {
            return Err(Error::Dropped);
        }
        self.strong = self.strong + 1;
        Ok(())
    }

    /// Gives a portal up. The anchor's own handle is not a portal: where no
    /// portal is counted, nothing changes.
    pub fn release(&mut self)
        requires
            old(self)@.wf(),
        ensures
            final(self)@.wf(),
            final(self)@ == old(self)@.released(),
    {
        if self.strong > 1 {
            self.strong = self.strong - 1;
        }
    }

    /// Asks for a read guard.
    ///
    /// A live write guard is in the way: a threaded caller gets `WouldBlock`,
    /// a cooperative one `Borrowed`. A poisoned slot answers `Poisoned`, a
    /// retired one `Dropped`. Otherwise the guard is granted and counted.
    pub fn acquire_read(&mut self) -> (result: Result<(), Error>)
        requires
            old(self)@.wf(),
            old(self)@.sharing is ReadWrite,
            old(self)@.readers < usize::MAX,
        ensures
            final(self)@.wf(),
            result == old(self)@.read_result(),
            final(self)@ == old(self)@.read_acquired(),
    {
        if self.contents.is_none() {
            return Err(Error::Dropped);
        }
        if self.writer {
            return Err(self.conflict());
        }
        if self.poisoned {
            return Err(Error::Poisoned);
        }
        self.readers = self.readers + 1;
        Ok(())
    }

    /// Asks for the write guard.
    ///
    /// Any live guard is in the way: a threaded caller gets `WouldBlock`, a
    /// cooperative one `Borrowed`. A poisoned slot answers `Poisoned`, a
    /// retired one `Dropped`. Otherwise the guard is granted.
    pub fn acquire_write(&mut self) -> (result: Result<(), Error>)
        requires
            old(self)@.wf(),
            !(old(self)@.sharing is ReadOnly),
        ensures
            final(self)@.wf(),
            result == old(self)@.write_result(),
            final(self)@ == old(self)@.write_acquired(),
    {
        if self.contents.is_none() {
            return Err(Error::Dropped);
        }
        if self.readers > 0 || self.writer {
            return Err(self.conflict());
        }
        if self.poisoned {
            return Err(Error::Poisoned);
        }
        self.writer = true;
        Ok(())
    }

    /// Releases a read guard. Where none is live, nothing changes.
    pub fn release_read(&mut self)
        requires
            old(self)@.wf(),
        ensures
            final(self)@.wf(),
            final(self)@ == old(self)@.read_released(),
    {
        if self.readers > 0 {
            self.readers = self.readers - 1;
        }
    }

    /// Releases the write guard. `failed` tells that the holder's code failed
    /// while it held the guard, which poisons the slot. Where no write guard
    /// is live, nothing changes.
    pub fn release_write(&mut self, failed: bool)
        requires
            old(self)@.wf(),
        ensures
            final(self)@.wf(),
            final(self)@ == old(self)@.write_released(failed),
    {
        if self.writer {
            self.writer = false;
            if failed {
                self.poisoned = true;
            }
        }
    }

    /// Reads the captured reference: `Dropped` once the slot is retired.
    pub fn get(&self) -> (result: Result<&P, Error>)
        ensures
            read_as(result) == self@.value(),
    {
        match &self.contents {
            Some(reference) => Ok(reference),
            None => Err(Error::Dropped),
        }
    }

    /// Gives the captured reference out for writing. The contents change
    /// only under the live write guard, so one has to be live.
    pub fn get_mut(&mut self) -> (reference: &mut P)
        requires
            old(self)@.wf(),
            old(self)@.writer,
        ensures
            old(self)@.value() == Ok::<P, Error>(*reference),
            final(self)@ == old(self)@.written(*final(reference)),
            final(self)@.wf(),
    {
        self.contents.as_mut().unwrap()
    }

    /// The sharing strategy that the slot was made with.
    pub fn sharing(&self) -> (sharing: Sharing)
        ensures
            sharing == self@.sharing,
    {
        self.sharing
    }

    /// The scheduling model that the slot was made for.
    pub fn context(&self) -> (context: Context)
        ensures
            context == self@.context,
    {
        self.context
    }

    /// Tells whether the slot is present: the anchor has not retired it.
    pub fn is_active(&self) -> (active: bool)
        ensures
            active == self@.is_active(),
    {
        self.contents.is_some()
    }

    /// Tells whether the slot is poisoned.
    pub fn is_poisoned(&self) -> (poisoned: bool)
        ensures
            poisoned == self@.poisoned,
    {
        self.poisoned
    }

    /// The number of strong handles: the anchor's own and one per portal.
    pub fn strong_count(&self) -> (count: usize)
        ensures
            count == self@.strong,
    {
        self.strong
    }

    /// The number of read guards that are live.
    pub fn readers(&self) -> (count: usize)
        ensures
            count == self@.readers,
    {
        self.readers
    }

    /// Tells whether the write guard is live.
    pub fn is_writing(&self) -> (writing: bool)
        ensures
            writing == self@.writer,
    {
        self.writer
    }

    /// How an access that meets a guard in its way fails here.
    fn conflict(&self) -> (error: Error)
        ensures
            error == self@.conflict(),
    {
        match self.context {
            Context::Threaded => Error::WouldBlock,
            Context::Cooperative => Error::Borrowed,
        }
    }

    /// Retires the slot: takes the captured reference out, so that every
    /// later upgrade and access fails with `Dropped`.
    ///
    /// This goes through only when the anchor's is the last strong handle, no
    /// guard is live and the slot is not poisoned. A live guard makes a
    /// threaded anchor wait and a cooperative one block for good. A portal
    /// that still exists is reported as `StillInUse`, and poisons a slot that
    /// can be written, so that whoever holds the portal learns of it; on a
    /// cooperative read-only slot it blocks for good instead. Retiring a
    /// retired slot changes nothing and answers `Ok(None)`.
    pub fn retire(&mut self) -> (result: Result<Option<P>, Error>)
        requires
            old(self)@.wf(),
        ensures
            final(self)@.wf(),
            result == old(self)@.retire_result(),
            final(self)@ == old(self)@.retired(),
    {
        if self.contents.is_none() {
            return Ok(None);
        }
        if self.readers > 0 || self.writer {
            return Err(
                match self.context {
                    Context::Threaded => Error::WouldBlock,
                    Context::Cooperative => Error::Deadlock,
                },
            );
        }
        if self.strong > 1 {
            return match (self.sharing, self.context) {
                (Sharing::ReadOnly, Context::Cooperative) => Err(Error::Deadlock),
                (Sharing::ReadOnly, Context::Threaded) => Err(Error::StillInUse),
                _ => {
                    self.poisoned = true;
                    Err(Error::StillInUse)
                },
            };
        }
        match pipe(self.poisoned, poison_verdict) {
            Err(error) => Err(error),
            Ok(()) => {
                self.strong = 0;
                Ok(self.contents.take())
            },
        }
    }
}

} // verus!
