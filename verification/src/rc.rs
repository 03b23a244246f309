//! Single-threaded anchors and portals.
//!
//! These are for one thread that takes turns: an access that meets a
//! conflicting borrow fails at once, and an anchor that is retired while a
//! reference to its value may still be in use blocks for good.

use core::marker::PhantomData;
use vstd::prelude::*;

use crate::error::Error;
use crate::handle::{granted, offered, Handle};
use crate::pipe::pipe;
use crate::slot::Slot;
use crate::state::{read_as, Context, Sharing, SlotState};

verus! {

/// An immutable anchor for one thread. It captures a shared reference.
///
/// Retiring it while a portal exists blocks for good: a portal of this
/// anchor reads without a guard, so a reference may be in use anywhere.
pub struct Anchor<P> {
    slot: Slot<P>,
}

/// An immutable portal for one thread. It reads without a guard.
///
/// The slot counts the portal until it is given up with `release`: a portal
/// that is dropped or leaked instead stays counted, and keeps the anchor
/// from retiring.
#[must_use]
pub struct Portal<P> {
    slot: Ghost<int>,
    target: PhantomData<P>,
}

/// A weak portal to the slot of an [`Anchor`]. It is not counted, and never
/// keeps the anchor from retiring.
#[must_use]
pub struct WeakPortal<P> {
    slot: Ghost<int>,
    target: PhantomData<P>,
}

impl<P> View for Anchor<P> {
    type V = SlotState<P>;

    closed spec fn view(&self) -> SlotState<P> {
        self.slot@
    }
}

impl<P> Handle for Portal<P> {
    closed spec fn slot(&self) -> int {
        self.slot@
    }
}

impl<P> Handle for WeakPortal<P> {
    closed spec fn slot(&self) -> int {
        self.slot@
    }
}

impl<P> Anchor<P> {
    /// The anchor's slot is well-formed, read-only and cooperative.
    pub open spec fn wf(&self) -> bool {
        &&& self@.wf()
        &&& self@.sharing is ReadOnly
        &&& self@.context is Cooperative
    }

    /// Creates a new `Anchor` instance, capturing `reference`.
    pub fn new(reference: P) -> (anchor: Self)
        ensures
            anchor.wf(),
            anchor@ == SlotState::fresh(
                anchor@.id,
                Sharing::ReadOnly,
                Context::Cooperative,
                reference,
            ),
    {
        Anchor { slot: Slot::new(Sharing::ReadOnly, Context::Cooperative, reference) }
    }

    /// Creates a portal of indefinite lifetime associated with this anchor.
    /// A retired anchor mints none: it answers `Dropped`.
    pub fn portal(&mut self) -> (result: Result<Portal<P>, Error>)
        requires
            old(self).wf(),
            old(self)@.strong < usize::MAX,
        ensures
            final(self).wf(),
            final(self)@ == old(self)@.minted(),
            granted(result, old(self)@.mint_result(), old(self)@.id),
    {
        match self.slot.mint() {
            Ok(()) => Ok(pipe(&self.slot, Portal::of)),
            Err(error) => Err(error),
        }
    }

    /// Creates a weak portal of indefinite lifetime associated with this
    /// anchor. Retiring an anchor goes through if only weak portals exist.
    pub fn weak_portal(&self) -> (weak: WeakPortal<P>)
        ensures
            weak.slot() == self@.id,
    {
        pipe(&self.slot, WeakPortal::of)
    }

    /// The slot that this anchor owns.
    pub fn slot(&self) -> (slot: &Slot<P>)
        ensures
            slot@ == self@,
    {
        &self.slot
    }

    /// Retires the anchor: takes the captured reference out of the slot, so
    /// that every later upgrade fails with `Dropped`.
    ///
    /// While a portal exists the anchor must not go on, and nothing changes:
    /// it answers `Deadlock`. Retiring a retired anchor answers `Ok(None)`.
    pub fn retire(&mut self) -> (result: Result<Option<P>, Error>)
        requires
            old(self).wf(),
        ensures
            final(self).wf(),
            result == old(self)@.retire_result(),
            final(self)@ == old(self)@.retired(),
            result == (if !old(self)@.is_active() {
                Ok::<Option<P>, Error>(None)
            } else if old(self)@.portals() >= 1 {
                Err::<Option<P>, Error>(Error::Deadlock)
            } else {
                Ok::<Option<P>, Error>(old(self)@.contents)
            }),
            result is Err ==> final(self)@ == old(self)@,
            result is Ok ==> !final(self)@.is_active(),
    {
        self.slot.retire()
    }
}

impl<P> Portal<P> {
    /// A portal to `slot`. The slot has counted it already.
    fn of(slot: &Slot<P>) -> (portal: Self)
        ensures
            portal.slot() == slot@.id,
    {
        Portal { slot: slot.mark(), target: PhantomData }
    }

    /// Creates a weak portal associated with the same anchor as `portal`.
    /// Retiring an anchor goes through if only weak portals exist.
    pub fn downgrade(portal: &Self) -> (weak: WeakPortal<P>)
        ensures
            weak.slot() == portal.slot(),
    {
        pipe(portal, WeakPortal::beside)
    }

    /// Reads the captured reference through the portal: `Dropped` if the
    /// anchor has retired the slot.
    pub fn deref<'a>(&self, anchor: &'a Anchor<P>) -> (result: Result<&'a P, Error>)
        requires
            self.slot() == anchor@.id,
        ensures
            read_as(result) == anchor@.value(),
    {
        anchor.slot.get()
    }

    /// Borrows the captured reference through the portal, as `deref` does.
    pub fn borrow<'a>(&self, anchor: &'a Anchor<P>) -> (result: Result<&'a P, Error>)
        requires
            self.slot() == anchor@.id,
        ensures
            read_as(result) == anchor@.value(),
    {
        self.deref(anchor)
    }

    /// Creates another portal to the same slot.
    pub fn clone(&self, anchor: &mut Anchor<P>) -> (result: Result<Self, Error>)
        requires
            self.slot() == old(anchor)@.id,
            old(anchor).wf(),
            old(anchor)@.strong < usize::MAX,
        ensures
            final(anchor).wf(),
            final(anchor)@ == old(anchor)@.minted(),
            granted(result, old(anchor)@.mint_result(), old(anchor)@.id),
    {
        anchor.portal()
    }

    /// Gives the portal up.
    pub fn release(self, anchor: &mut Anchor<P>)
        requires
            self.slot() == old(anchor)@.id,
            old(anchor).wf(),
        ensures
            final(anchor).wf(),
            final(anchor)@ == old(anchor)@.released(),
    {
        anchor.slot.release()
    }
}

impl<P> WeakPortal<P> {
    /// A weak portal to `slot`.
    fn of(slot: &Slot<P>) -> (weak: Self)
        ensures
            weak.slot() == slot@.id,
    {
        WeakPortal { slot: slot.mark(), target: PhantomData }
    }

    /// A weak portal to the slot of `portal`.
    fn beside(portal: &Portal<P>) -> (weak: Self)
        ensures
            weak.slot() == portal.slot(),
    {
        WeakPortal { slot: portal.slot, target: PhantomData }
    }

    /// Makes a portal of this weak portal, unless the anchor has retired the
    /// slot.
    pub fn try_upgrade(&self, anchor: &mut Anchor<P>) -> (result: Option<Portal<P>>)
        requires
            self.slot() == old(anchor)@.id,
            old(anchor).wf(),
            old(anchor)@.strong < usize::MAX,
        ensures
            final(anchor).wf(),
            final(anchor)@ == old(anchor)@.minted(),
            offered(result, old(anchor)@.mint_result(), old(anchor)@.id),
    {
        match anchor.portal() {
            Ok(portal) => Some(portal),
            Err(_) => None,
        }
    }

    /// Makes a portal of this weak portal, or reports `Dropped` if the anchor
    /// has retired the slot.
    pub fn upgrade(&self, anchor: &mut Anchor<P>) -> (result: Result<Portal<P>, Error>)
        requires
            self.slot() == old(anchor)@.id,
            old(anchor).wf(),
            old(anchor)@.strong < usize::MAX,
        ensures
            final(anchor).wf(),
            final(anchor)@ == old(anchor)@.minted(),
            granted(result, old(anchor)@.mint_result(), old(anchor)@.id),
    {
        self.try_upgrade(anchor).ok_or(Error::Dropped)
    }
}

impl<P> Clone for WeakPortal<P> {
    fn clone(&self) -> (weak: Self)
        ensures
            weak == *self,
    {
        WeakPortal { slot: self.slot, target: PhantomData }
    }
}

/// A mutable anchor for one thread, with overlapping immutable borrows. It
/// captures a mutable reference.
///
/// Retiring it while a guard is live blocks for good. Retiring it while a
/// portal exists fails with `StillInUse` and poisons the slot; retiring it
/// once it is poisoned fails with `Poisoned`.
pub struct RwAnchor<P> {
    slot: Slot<P>,
}

/// A mutable portal for one thread, with overlapping immutable borrows.
/// Acquire a guard by calling `borrow` or `borrow_mut`.
///
/// The slot counts the portal until it is given up with `release`: a portal
/// that is dropped or leaked instead stays counted, and keeps the anchor
/// from retiring.
#[must_use]
pub struct RwPortal<P> {
    slot: Ghost<int>,
    target: PhantomData<P>,
}

/// A weak portal to the slot of an [`RwAnchor`]. It is not counted, and
/// never keeps the anchor from retiring.
#[must_use]
pub struct WeakRwPortal<P> {
    slot: Ghost<int>,
    target: PhantomData<P>,
}

/// A read guard, borrowed from an [`RwPortal`]. It is live until it is given
/// up with `release`.
#[must_use]
pub struct PortalRef<'a, P> {
    portal: &'a RwPortal<P>,
}

/// The write guard, borrowed from an [`RwPortal`]. It is live until it is
/// given up with `release`, which also tells whether its holder failed.
#[must_use]
pub struct PortalRefMut<'a, P> {
    portal: &'a RwPortal<P>,
}

impl<P> View for RwAnchor<P> {
    type V = SlotState<P>;

    closed spec fn view(&self) -> SlotState<P> {
        self.slot@
    }
}

impl<P> Handle for RwPortal<P> {
    closed spec fn slot(&self) -> int {
        self.slot@
    }
}

impl<P> Handle for WeakRwPortal<P> {
    closed spec fn slot(&self) -> int {
        self.slot@
    }
}

impl<'a, P> Handle for PortalRef<'a, P> {
    closed spec fn slot(&self) -> int {
        self.portal.slot()
    }
}

impl<'a, P> Handle for PortalRefMut<'a, P> {
    closed spec fn slot(&self) -> int {
        self.portal.slot()
    }
}

impl<P> RwAnchor<P> {
    /// The anchor's slot is well-formed, shared for reading or held for
    /// writing, and cooperative.
    pub open spec fn wf(&self) -> bool {
        &&& self@.wf()
        &&& self@.sharing is ReadWrite
        &&& self@.context is Cooperative
    }

    /// Creates a new `RwAnchor` instance, capturing `reference`.
    pub fn new(reference: P) -> (anchor: Self)
        ensures
            anchor.wf(),
            anchor@ == SlotState::fresh(
                anchor@.id,
                Sharing::ReadWrite,
                Context::Cooperative,
                reference,
            ),
    {
        RwAnchor { slot: Slot::new(Sharing::ReadWrite, Context::Cooperative, reference) }
    }

    /// Creates a portal with unbounded lifetime supporting overlapping
    /// reads. A retired anchor mints none: it answers `Dropped`.
    pub fn portal(&mut self) -> (result: Result<RwPortal<P>, Error>)
        requires
            old(self).wf(),
            old(self)@.strong < usize::MAX,
        ensures
            final(self).wf(),
            final(self)@ == old(self)@.minted(),
            granted(result, old(self)@.mint_result(), old(self)@.id),
    {
        match self.slot.mint() {
            Ok(()) => Ok(pipe(&self.slot, RwPortal::of)),
            Err(error) => Err(error),
        }
    }

    /// Creates a weak portal of indefinite lifetime associated with this
    /// anchor. Retiring an anchor goes through if only weak portals exist.
    pub fn weak_portal(&self) -> (weak: WeakRwPortal<P>)
        ensures
            weak.slot() == self@.id,
    {
        pipe(&self.slot, WeakRwPortal::of)
    }

    /// The slot that this anchor owns.
    pub fn slot(&self) -> (slot: &Slot<P>)
        ensures
            slot@ == self@,
    {
        &self.slot
    }

    /// Retires the anchor: takes the captured reference out of the slot, so
    /// that every later upgrade fails with `Dropped`.
    ///
    /// While a guard is live the anchor must not go on, and nothing changes: it
    /// answers `Deadlock`. While a portal exists and no guard is live, the
    /// anchor fails with `StillInUse` and poisons the slot. With no portal
    /// left, a poisoned anchor fails with `Poisoned`. Retiring a retired
    /// anchor answers `Ok(None)`.
    pub fn retire(&mut self) -> (result: Result<Option<P>, Error>)
        requires
            old(self).wf(),
        ensures
            final(self).wf(),
            result == old(self)@.retire_result(),
            final(self)@ == old(self)@.retired(),
            result == (if !old(self)@.is_active() {
                Ok::<Option<P>, Error>(None)
            } else if old(self)@.borrowed() {
                Err::<Option<P>, Error>(Error::Deadlock)
            } else if old(self)@.portals() >= 1 {
                Err::<Option<P>, Error>(Error::StillInUse)
            } else if old(self)@.poisoned {
                Err::<Option<P>, Error>(Error::Poisoned)
            } else {
                Ok::<Option<P>, Error>(old(self)@.contents)
            }),
            final(self)@.poisoned == (old(self)@.poisoned || result matches Err(
                Error::StillInUse,
            )),
            result is Err ==> final(self)@.contents == old(self)@.contents,
            result is Ok ==> !final(self)@.is_active(),
    {
        self.slot.retire()
    }
}

impl<P> RwPortal<P> {
    /// A portal to `slot`. The slot has counted it already.
    fn of(slot: &Slot<P>) -> (portal: Self)
        ensures
            portal.slot() == slot@.id,
    {
        RwPortal { slot: slot.mark(), target: PhantomData }
    }

    /// Creates a weak portal associated with the same anchor as this one.
    /// Retiring an anchor goes through if only weak portals exist.
    pub fn downgrade(&self) -> (weak: WeakRwPortal<P>)
        ensures
            weak.slot() == self.slot(),
    {
        pipe(self, WeakRwPortal::beside)
    }

    /// Acquires a read guard. It fails with `Borrowed` while the write guard
    /// is live, with `Poisoned` on a poisoned slot and with `Dropped` on a
    /// retired one.
    pub fn borrow<'a>(&'a self, anchor: &mut RwAnchor<P>) -> (result: Result<
        PortalRef<'a, P>,
        Error,
    >)
        requires
            self.slot() == old(anchor)@.id,
            old(anchor).wf(),
            old(anchor)@.readers < usize::MAX,
        ensures
            final(anchor).wf(),
            final(anchor)@ == old(anchor)@.read_acquired(),
            granted(result, old(anchor)@.read_result(), old(anchor)@.id),
    {
        match anchor.slot.acquire_read() {
            Ok(()) => Ok(PortalRef { portal: self }),
            Err(error) => Err(error),
        }
    }

    /// Acquires the write guard. It fails with `Borrowed` while any guard is
    /// live, with `Poisoned` on a poisoned slot and with `Dropped` on a
    /// retired one.
    pub fn borrow_mut<'a>(&'a self, anchor: &mut RwAnchor<P>) -> (result: Result<
        PortalRefMut<'a, P>,
        Error,
    >)
        requires
            self.slot() == old(anchor)@.id,
            old(anchor).wf(),
        ensures
            final(anchor).wf(),
            final(anchor)@ == old(anchor)@.write_acquired(),
            granted(result, old(anchor)@.write_result(), old(anchor)@.id),
    {
        match anchor.slot.acquire_write() {
            Ok(()) => Ok(PortalRefMut { portal: self }),
            Err(error) => Err(error),
        }
    }

    /// Creates another portal to the same slot.
    pub fn clone(&self, anchor: &mut RwAnchor<P>) -> (result: Result<Self, Error>)
        requires
            self.slot() == old(anchor)@.id,
            old(anchor).wf(),
            old(anchor)@.strong < usize::MAX,
        ensures
            final(anchor).wf(),
            final(anchor)@ == old(anchor)@.minted(),
            granted(result, old(anchor)@.mint_result(), old(anchor)@.id),
    {
        anchor.portal()
    }

    /// Gives the portal up.
    pub fn release(self, anchor: &mut RwAnchor<P>)
        requires
            self.slot() == old(anchor)@.id,
            old(anchor).wf(),
        ensures
            final(anchor).wf(),
            final(anchor)@ == old(anchor)@.released(),
    {
        anchor.slot.release()
    }
}

impl<P> WeakRwPortal<P> {
    /// A weak portal to `slot`.
    fn of(slot: &Slot<P>) -> (weak: Self)
        ensures
            weak.slot() == slot@.id,
    {
        WeakRwPortal { slot: slot.mark(), target: PhantomData }
    }

    /// A weak portal to the slot of `portal`.
    fn beside(portal: &RwPortal<P>) -> (weak: Self)
        ensures
            weak.slot() == portal.slot(),
    {
        WeakRwPortal { slot: portal.slot, target: PhantomData }
    }

    /// Makes a portal of this weak portal, unless the anchor has retired the
    /// slot.
    pub fn try_upgrade(&self, anchor: &mut RwAnchor<P>) -> (result: Option<RwPortal<P>>)
        requires
            self.slot() == old(anchor)@.id,
            old(anchor).wf(),
            old(anchor)@.strong < usize::MAX,
        ensures
            final(anchor).wf(),
            final(anchor)@ == old(anchor)@.minted(),
            offered(result, old(anchor)@.mint_result(), old(anchor)@.id),
    {
        match anchor.portal() {
            Ok(portal) => Some(portal),
            Err(_) => None,
        }
    }

    /// Makes a portal of this weak portal, or reports `Dropped` if the anchor
    /// has retired the slot.
    pub fn upgrade(&self, anchor: &mut RwAnchor<P>) -> (result: Result<RwPortal<P>, Error>)
        requires
            self.slot() == old(anchor)@.id,
            old(anchor).wf(),
            old(anchor)@.strong < usize::MAX,
        ensures
            final(anchor).wf(),
            final(anchor)@ == old(anchor)@.minted(),
            granted(result, old(anchor)@.mint_result(), old(anchor)@.id),
    {
        self.try_upgrade(anchor).ok_or(Error::Dropped)
    }
}

impl<P> Clone for WeakRwPortal<P> {
    fn clone(&self) -> (weak: Self)
        ensures
            weak == *self,
    {
        WeakRwPortal { slot: self.slot, target: PhantomData }
    }
}

impl<'a, P> PortalRef<'a, P> {
    /// Reads the captured reference under the guard: `Dropped` if the slot
    /// is retired.
    pub fn deref<'b>(&self, anchor: &'b RwAnchor<P>) -> (result: Result<&'b P, Error>)
        requires
            self.slot() == anchor@.id,
        ensures
            read_as(result) == anchor@.value(),
    {
        anchor.slot.get()
    }

    /// Releases the guard.
    pub fn release(self, anchor: &mut RwAnchor<P>)
        requires
            self.slot() == old(anchor)@.id,
            old(anchor).wf(),
        ensures
            final(anchor).wf(),
            final(anchor)@ == old(anchor)@.read_released(),
    {
        anchor.slot.release_read()
    }
}

impl<'a, P> PortalRefMut<'a, P> {
    /// Reads the captured reference under the guard: `Dropped` if the slot
    /// is retired.
    pub fn deref<'b>(&self, anchor: &'b RwAnchor<P>) -> (result: Result<&'b P, Error>)
        requires
            self.slot() == anchor@.id,
        ensures
            read_as(result) == anchor@.value(),
    {
        anchor.slot.get()
    }

    /// Gives the captured reference out for writing, while the guard is
    /// live.
    pub fn deref_mut<'b>(&mut self, anchor: &'b mut RwAnchor<P>) -> (reference: &'b mut P)
        requires
            old(self).slot() == old(anchor)@.id,
            old(anchor).wf(),
            old(anchor)@.writer,
        ensures
            old(anchor)@.value() == Ok::<P, Error>(*reference),
            final(anchor)@ == old(anchor)@.written(*final(reference)),
            final(anchor).wf(),
            *final(self) == *old(self),
    {
        anchor.slot.get_mut()
    }

    /// Releases the guard. `failed` tells that the holder's code failed
    /// while it held the guard: the slot is poisoned then.
    pub fn release(self, anchor: &mut RwAnchor<P>, failed: bool)
        requires
            self.slot() == old(anchor)@.id,
            old(anchor).wf(),
        ensures
            final(anchor).wf(),
            final(anchor)@ == old(anchor)@.write_released(failed),
    {
        anchor.slot.release_write(failed)
    }
}

} // verus!
