//! What holds of a slot over any sequence of operations.
//!
//! Handles are used in whatever order their holders take turns. A sequence
//! of steps stands for one such order; the proofs here hold of every
//! sequence.

use vstd::prelude::*;

use crate::error::Error;
use crate::state::SlotState;

verus! {

/// One operation on a slot, by whoever holds the handle for it.
pub enum Step<P> {
    /// A portal is minted, cloned, or upgraded from a weak portal.
    Mint,
    /// A portal is given up.
    Release,
    /// A read guard is asked for.
    AcquireRead,
    /// The write guard is asked for.
    AcquireWrite,
    /// A read guard is released.
    ReleaseRead,
    /// The write guard is released, in good order or during a failure.
    ReleaseWrite { failed: bool },
    /// The contents are replaced under the write guard.
    Write { reference: P },
    /// The anchor tries to retire the slot.
    Retire,
}

impl<P> SlotState<P> {
    /// Whether the operation can be asked of this slot: guards only where
    /// the sharing strategy has them, a write only under the write guard.
    pub open spec fn admits(self, step: Step<P>) -> bool {
        match step {
            Step::AcquireRead => self.sharing is ReadWrite,
            Step::AcquireWrite => !(self.sharing is ReadOnly),
            Step::Write { .. } => self.writer,
            _ => true,
        }
    }

    /// The slot after one operation. An operation that cannot be asked of
    /// the slot does not take place.
    pub open spec fn step(self, step: Step<P>) -> Self {
        if !self.admits(step) {
            self
        } else {
            match step {
                Step::Mint => self.minted(),
                Step::Release => self.released(),
                Step::AcquireRead => self.read_acquired(),
                Step::AcquireWrite => self.write_acquired(),
                Step::ReleaseRead => self.read_released(),
                Step::ReleaseWrite { failed } => self.write_released(failed),
                Step::Write { reference } => self.written(reference),
                Step::Retire => self.retired(),
            }
        }
    }

    /// The slot after a sequence of operations, first to last.
    pub open spec fn run(self, steps: Seq<Step<P>>) -> Self
        decreases steps.len(),
    {
        if steps.len() == 0 {
            self
        } else {
            self.run(steps.drop_last()).step(steps.last())
        }
    }
}

/// No sequence of operations writes: none of its steps is a `Write`.
pub open spec fn writes_nothing<P>(steps: Seq<Step<P>>) -> bool {
    forall|i: int| 0 <= i < steps.len() ==> !(#[trigger] steps[i] is Write)
}

/// A slot stays well-formed whatever is done through its handles, in
/// whatever order.
pub proof fn every_run_keeps_slots_well_formed<P>(s: SlotState<P>, steps: Seq<Step<P>>)
    requires
        s.wf(),
    ensures
        s.run(steps).wf(),
        s.run(steps).id == s.id,
        s.run(steps).sharing == s.sharing,
        s.run(steps).context == s.context,
    decreases steps.len(),
{
    if steps.len() > 0 {
        every_run_keeps_slots_well_formed(s, steps.drop_last());
    }
}

/// Once the anchor has retired the slot, nothing that is done afterwards
/// changes it: it stays absent, and every upgrade fails with `Dropped`.
pub proof fn no_run_revives_a_retired_slot<P>(s: SlotState<P>, steps: Seq<Step<P>>)
    requires
        s.wf(),
        !s.is_active(),
    ensures
        s.run(steps) == s,
        s.run(steps).mint_result() == Err::<(), Error>(Error::Dropped),
    decreases steps.len(),
{
    if steps.len() > 0 {
        no_run_revives_a_retired_slot(s, steps.drop_last());
    }
}

/// Once a slot is poisoned, nothing that is done afterwards clears the
/// poison or retires the slot: every later read and write is refused with
/// `Poisoned`, and retirement fails.
pub proof fn no_run_clears_poison<P>(s: SlotState<P>, steps: Seq<Step<P>>)
    requires
        s.wf(),
        s.poisoned,
    ensures
        s.run(steps).poisoned,
        s.run(steps).is_active(),
        s.run(steps).read_result() == Err::<(), Error>(Error::Poisoned),
        s.run(steps).write_result() == Err::<(), Error>(Error::Poisoned),
        s.run(steps).retire_result() is Err,
    decreases steps.len(),
{
    every_run_keeps_slots_well_formed(s, steps);
    if steps.len() > 0 {
        no_run_clears_poison(s, steps.drop_last());
        every_run_keeps_slots_well_formed(s, steps.drop_last());
    }
}

/// Whatever is done without writing, a slot that is still present holds the
/// reference that it held before: a portal reads the captured reference
/// until the anchor retires.
pub proof fn reads_are_stable_over_runs<P>(s: SlotState<P>, steps: Seq<Step<P>>)
    requires
        s.wf(),
        writes_nothing(steps),
    ensures
        s.run(steps).is_active() ==> s.run(steps).value() == s.value(),
        s.run(steps).is_active() ==> s.is_active(),
    decreases steps.len(),
{
    if steps.len() > 0 {
        let earlier = steps.drop_last();
        assert forall|i: int| 0 <= i < earlier.len() implies !(#[trigger] earlier[i] is Write)
        by {
            assert(earlier[i] == steps[i]);
        }
        reads_are_stable_over_runs(s, earlier);
        every_run_keeps_slots_well_formed(s, earlier);
    }
}

/// A portal of a new anchor reads the captured reference after any sequence
/// of operations that writes nothing and leaves the slot present.
pub proof fn portal_reads_the_captured_reference_over_runs<P>(
    s: SlotState<P>,
    reference: P,
    steps: Seq<Step<P>>,
)
    requires
        s == SlotState::fresh(s.id, s.sharing, s.context, reference),
        writes_nothing(steps),
        s.minted().run(steps).is_active(),
    ensures
        s.minted().run(steps).value() == Ok::<P, Error>(reference),
{
    reads_are_stable_over_runs(s.minted(), steps);
}

/// No sequence of operations gives a portal up: none of its steps is a
/// `Release`.
pub open spec fn releases_nothing<P>(steps: Seq<Step<P>>) -> bool {
    forall|i: int| 0 <= i < steps.len() ==> !(#[trigger] steps[i] is Release)
}

/// While a portal exists and is not given up, the slot stays present
/// whatever else is done, retirement attempts included: a leaked portal
/// keeps the anchor from ever retiring.
pub proof fn a_kept_portal_keeps_the_slot_present<P>(s: SlotState<P>, steps: Seq<Step<P>>)
    requires
        s.wf(),
        s.portals() >= 1,
        releases_nothing(steps),
    ensures
        s.run(steps).is_active(),
        s.run(steps).portals() >= s.portals(),
        s.run(steps).retire_result() is Err,
    decreases steps.len(),
{
    if steps.len() > 0 {
        let earlier = steps.drop_last();
        assert forall|i: int| 0 <= i < earlier.len() implies !(#[trigger] earlier[i] is Release)
        by {
            assert(earlier[i] == steps[i]);
        }
        a_kept_portal_keeps_the_slot_present(s, earlier);
        every_run_keeps_slots_well_formed(s, earlier);
        assert(!(steps.last() is Release)) by {
            assert(steps.last() == steps[steps.len() - 1]);
        }
    }
}

impl<P> SlotState<P> {
    /// Guards are held through portals: while a guard is live, a portal
    /// exists.
    pub open spec fn guarded_through_portals(self) -> bool {
        self.borrowed() ==> self.portals() >= 1
    }

    /// Whether the operation can come about through handles that are used as
    /// their types ask: a guard is asked for through a portal, and it
    /// borrows that portal, so the last portal is not given up while a guard
    /// is live.
    pub open spec fn permits(self, step: Step<P>) -> bool {
        match step {
            Step::AcquireRead => self.portals() >= 1,
            Step::AcquireWrite => self.portals() >= 1,
            Step::Release => !(self.borrowed() && self.portals() <= 1),
            _ => true,
        }
    }

    /// Every step of the sequence can come about through handles, from this
    /// slot on.
    pub open spec fn permits_all(self, steps: Seq<Step<P>>) -> bool
        decreases steps.len(),
    {
        steps.len() == 0 || (self.permits_all(steps.drop_last()) && self.run(
            steps.drop_last(),
        ).permits(steps.last()))
    }
}

/// Where the operations come about through handles, a guard is never live
/// without a portal.
pub proof fn guards_are_held_through_portals<P>(s: SlotState<P>, steps: Seq<Step<P>>)
    requires
        s.wf(),
        s.guarded_through_portals(),
        s.permits_all(steps),
    ensures
        s.run(steps).guarded_through_portals(),
    decreases steps.len(),
{
    if steps.len() > 0 {
        guards_are_held_through_portals(s, steps.drop_last());
        every_run_keeps_slots_well_formed(s, steps.drop_last());
    }
}

/// Whatever was done through the handles of a new anchor: once no portal is
/// left, retiring the anchor goes through, unless the slot is poisoned. It
/// hands back the contents and leaves the slot absent.
pub proof fn retirement_goes_through_once_the_portals_are_gone<P>(
    s: SlotState<P>,
    reference: P,
    steps: Seq<Step<P>>,
)
    requires
        s == SlotState::fresh(s.id, s.sharing, s.context, reference),
        s.permits_all(steps),
        s.run(steps).is_active(),
        s.run(steps).portals() == 0,
        !s.run(steps).poisoned,
    ensures
        s.run(steps).retire_result() == Ok::<Option<P>, Error>(s.run(steps).contents),
        !s.run(steps).retired().is_active(),
{
    guards_are_held_through_portals(s, steps);
    every_run_keeps_slots_well_formed(s, steps);
}

} // verus!
