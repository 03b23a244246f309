//! What holds of a slot across its operations.
//!
//! The contracts of the operations say what each one does. The proofs here
//! say what follows for a slot's whole life: what a portal reads, when
//! retirement goes through, that retirement and poison are for good.

use vstd::prelude::*;

use crate::error::Error;
use crate::state::{Context, Sharing, SlotState};

verus! {

/// Every operation keeps a slot well-formed. Guards are asked for only where
/// the sharing strategy has them, and the contents are written only under
/// the write guard.
pub proof fn operations_keep_slots_well_formed<P>(s: SlotState<P>, failed: bool, reference: P)
    requires
        s.wf(),
    ensures
        s.minted().wf(),
        s.released().wf(),
        s.sharing is ReadWrite ==> s.read_acquired().wf(),
        !(s.sharing is ReadOnly) ==> s.write_acquired().wf(),
        s.read_released().wf(),
        s.write_released(failed).wf(),
        s.writer ==> s.written(reference).wf(),
        s.retired().wf(),
{
}

/// The slot of a new anchor is well-formed, whatever its strategy.
pub proof fn new_slots_are_well_formed<P>(
    id: int,
    sharing: Sharing,
    context: Context,
    reference: P,
)
    ensures
        SlotState::fresh(id, sharing, context, reference).wf(),
{
}

/// A portal that an anchor over `reference` mints reads `reference`.
pub proof fn portal_reads_the_captured_reference<P>(
    id: int,
    sharing: Sharing,
    context: Context,
    reference: P,
)
    ensures
        SlotState::fresh(id, sharing, context, reference).mint_result() == Ok::<(), Error>(()),
        SlotState::fresh(id, sharing, context, reference).minted().value() == Ok::<P, Error>(
            reference,
        ),
{
}

/// Reading answers the contents for as long as the slot is present, and no
/// operation but a write under the guard and the retirement that goes
/// through changes what is read.
pub proof fn reads_are_stable_until_retirement<P>(s: SlotState<P>, failed: bool)
    requires
        s.wf(),
        s.is_active(),
    ensures
        s.value() == Ok::<P, Error>(s.contents->0),
        s.minted().value() == s.value(),
        s.released().value() == s.value(),
        s.read_acquired().value() == s.value(),
        s.write_acquired().value() == s.value(),
        s.read_released().value() == s.value(),
        s.write_released(failed).value() == s.value(),
        s.retire_result() is Err ==> s.retired().value() == s.value(),
{
}

/// What is written under the write guard is what is read from then on.
pub proof fn a_write_is_read_back<P>(s: SlotState<P>, reference: P)
    requires
        s.wf(),
        s.writer,
    ensures
        s.written(reference).value() == Ok::<P, Error>(reference),
        s.written(reference).write_released(false).value() == Ok::<P, Error>(reference),
{
}

/// Retiring an anchor that has no portal left, whose slot is neither
/// poisoned nor under a guard, goes through: it hands the contents back and
/// leaves the slot absent.
pub proof fn retirement_without_portals_goes_through<P>(s: SlotState<P>)
    requires
        s.wf(),
        s.is_active(),
        s.portals() == 0,
        !s.poisoned,
        !s.borrowed(),
    ensures
        s.retire_result() == Ok::<Option<P>, Error>(s.contents),
        !s.retired().is_active(),
        s.retired().strong == 0,
{
}

/// Retiring a read-only anchor that has no portal left always goes through:
/// its slot has neither poison nor guards.
pub proof fn read_only_retirement_without_portals_goes_through<P>(s: SlotState<P>)
    requires
        s.wf(),
        s.is_active(),
        s.portals() == 0,
        s.sharing is ReadOnly,
    ensures
        s.retire_result() == Ok::<Option<P>, Error>(s.contents),
        !s.retired().is_active(),
{
}

/// Retirement goes through only for the last strong handle, with no guard
/// live and no poison.
pub proof fn retirement_needs_the_last_handle<P>(s: SlotState<P>)
    requires
        s.wf(),
        s.retire_result() is Ok,
        s.is_active(),
    ensures
        s.strong == 1,
        s.portals() == 0,
        !s.borrowed(),
        !s.poisoned,
        s.retire_result() == Ok::<Option<P>, Error>(s.contents),
{
}

/// While a portal exists, retirement never goes through and the slot stays
/// present. The anchor is told `StillInUse`, or to block: for good
/// (`Deadlock`) where it is cooperative and a reference may be in use, until
/// the guard is released (`WouldBlock`) where it is threaded.
pub proof fn retirement_with_portals_never_completes<P>(s: SlotState<P>)
    requires
        s.wf(),
        s.portals() >= 1,
    ensures
        s.retire_result() is Err,
        s.retire_result()->Err_0 is StillInUse || s.retire_result()->Err_0.blocks(),
        s.retire_result() == Err::<Option<P>, Error>(
            if s.borrowed() {
                s.barrier()
            } else {
                s.refusal()
            },
        ),
        s.retired().is_active(),
        s.retired().contents == s.contents,
        s.retired().strong == s.strong,
{
}

/// With a portal left and no guard live, a threaded anchor fails with
/// `StillInUse`, and so does a cooperative one whose slot can be written; a
/// cooperative read-only anchor blocks for good. A failure with `StillInUse`
/// poisons a slot that can be written.
pub proof fn retirement_with_idle_portals<P>(s: SlotState<P>)
    requires
        s.wf(),
        s.portals() >= 1,
        !s.borrowed(),
    ensures
        s.context is Threaded ==> s.retire_result() == Err::<Option<P>, Error>(
            Error::StillInUse,
        ),
        s.context is Cooperative && !(s.sharing is ReadOnly) ==> s.retire_result() == Err::<
            Option<P>,
            Error,
        >(Error::StillInUse),
        s.context is Cooperative && s.sharing is ReadOnly ==> s.retire_result() == Err::<
            Option<P>,
            Error,
        >(Error::Deadlock),
        s.retire_result()->Err_0 is StillInUse && !(s.sharing is ReadOnly)
            ==> s.retired().poisoned,
{
}

/// With a portal left and a guard live, a cooperative anchor blocks for
/// good and a threaded one waits for the guard; neither changes the slot.
pub proof fn retirement_under_a_guard<P>(s: SlotState<P>)
    requires
        s.wf(),
        s.borrowed(),
    ensures
        s.context is Cooperative ==> s.retire_result() == Err::<Option<P>, Error>(
            Error::Deadlock,
        ),
        s.context is Threaded ==> s.retire_result() == Err::<Option<P>, Error>(
            Error::WouldBlock,
        ),
        s.retired() == s,
{
}

/// A weak portal upgrades exactly while the anchor has not retired the slot,
/// whether the slot is poisoned or not; after retirement the upgrade fails
/// with `Dropped`.
pub proof fn upgrade_succeeds_until_retirement<P>(s: SlotState<P>)
    requires
        s.wf(),
    ensures
        s.mint_result() is Ok <==> s.is_active(),
        !s.is_active() ==> s.mint_result() == Err::<(), Error>(Error::Dropped),
        s.is_active() && s.retire_result() is Ok ==> s.retired().mint_result() == Err::<
            (),
            Error,
        >(Error::Dropped),
        s.retire_result() is Err ==> s.retired().mint_result() == s.mint_result(),
{
}

/// Retirement is for good: no operation brings a retired slot back, no
/// portal is minted and no guard granted on it, and reading fails with
/// `Dropped`.
pub proof fn retirement_is_final<P>(s: SlotState<P>, failed: bool)
    requires
        s.wf(),
        !s.is_active(),
    ensures
        s.minted() == s,
        s.released() == s,
        s.read_acquired() == s,
        s.write_acquired() == s,
        s.read_released() == s,
        s.write_released(failed) == s,
        s.retired() == s,
        s.mint_result() == Err::<(), Error>(Error::Dropped),
        s.read_result() == Err::<(), Error>(Error::Dropped),
        s.write_result() == Err::<(), Error>(Error::Dropped),
        s.value() == Err::<P, Error>(Error::Dropped),
        s.retire_result() == Ok::<Option<P>, Error>(None),
{
}

/// Releasing the write guard during a failure poisons the slot; releasing it
/// in good order does not.
pub proof fn a_failed_write_poisons<P>(s: SlotState<P>)
    requires
        s.wf(),
        s.writer,
    ensures
        s.write_released(true).poisoned,
        !s.write_released(true).writer,
        s.write_released(false).poisoned == s.poisoned,
        !s.poisoned,
{
}

/// A poisoned slot refuses every read and every write with `Poisoned`. Its
/// retirement fails too: with `Poisoned` when the anchor's is the last
/// strong handle, with `StillInUse` while a portal exists.
pub proof fn a_poisoned_slot_refuses_access<P>(s: SlotState<P>)
    requires
        s.wf(),
        s.poisoned,
    ensures
        s.read_result() == Err::<(), Error>(Error::Poisoned),
        s.write_result() == Err::<(), Error>(Error::Poisoned),
        s.retire_result() is Err,
        s.portals() == 0 ==> s.retire_result() == Err::<Option<P>, Error>(Error::Poisoned),
        s.portals() >= 1 ==> s.retire_result() == Err::<Option<P>, Error>(Error::StillInUse),
        s.retired().is_active(),
{
}

/// Poison is for good: whatever is done to a poisoned slot, it stays
/// poisoned and present.
pub proof fn poison_is_final<P>(s: SlotState<P>, failed: bool)
    requires
        s.wf(),
        s.poisoned,
    ensures
        s.minted().poisoned,
        s.released().poisoned,
        s.read_acquired().poisoned,
        s.write_acquired().poisoned,
        s.read_released().poisoned,
        s.write_released(failed).poisoned,
        s.retired().poisoned,
        s.retired().is_active(),
{
}

/// Guards exclude each other as the strategy says: a read guard is granted
/// only while no writer is live, the write guard only while no guard is.
pub proof fn guards_exclude_each_other<P>(s: SlotState<P>)
    requires
        s.wf(),
    ensures
        s.read_result() is Ok ==> !s.writer && s.read_acquired().readers == s.readers + 1,
        s.write_result() is Ok ==> !s.borrowed() && s.write_acquired().writer,
        s.writer ==> s.read_result() == Err::<(), Error>(s.conflict()),
        s.borrowed() ==> s.write_result() == Err::<(), Error>(s.conflict()),
{
}

} // verus!
