use ref_portals::error::Error;
use ref_portals::slot::Slot;
use ref_portals::state::{Context, Sharing};

#[test]
fn new_slot_is_present_and_held_once() {
    let slot = Slot::new(Sharing::ReadWrite, Context::Threaded, 'a');
    assert_eq!(slot.sharing(), Sharing::ReadWrite);
    assert_eq!(slot.context(), Context::Threaded);
    assert!(slot.is_active());
    assert!(!slot.is_poisoned());
    assert!(!slot.is_writing());
    assert_eq!(slot.strong_count(), 1);
    assert_eq!(slot.readers(), 0);
    assert_eq!(slot.get(), Ok(&'a'));
}

#[test]
fn minting_and_releasing_move_the_count_by_one() {
    let mut slot = Slot::new(Sharing::ReadOnly, Context::Cooperative, 'a');
    assert_eq!(slot.mint(), Ok(()));
    assert_eq!(slot.mint(), Ok(()));
    assert_eq!(slot.strong_count(), 3);
    slot.release();
    assert_eq!(slot.strong_count(), 2);
    slot.release();
    slot.release();
    slot.release();
    assert_eq!(slot.strong_count(), 1);
}

#[test]
fn retired_slot_refuses_everything_with_dropped() {
    let mut slot = Slot::new(Sharing::ReadWrite, Context::Cooperative, 'a');
    assert_eq!(slot.retire(), Ok(Some('a')));
    assert!(!slot.is_active());
    assert_eq!(slot.strong_count(), 0);
    assert_eq!(slot.mint(), Err(Error::Dropped));
    assert_eq!(slot.acquire_read(), Err(Error::Dropped));
    assert_eq!(slot.acquire_write(), Err(Error::Dropped));
    assert_eq!(slot.get(), Err(Error::Dropped));
    slot.release();
    slot.release_read();
    slot.release_write(true);
    assert!(!slot.is_poisoned());
    assert_eq!(slot.strong_count(), 0);
    assert_eq!(slot.retire(), Ok(None));
}

#[test]
fn releases_without_a_live_guard_change_nothing() {
    let mut slot = Slot::new(Sharing::ReadWrite, Context::Threaded, 0u8);
    slot.release_read();
    slot.release_write(true);
    assert_eq!(slot.readers(), 0);
    assert!(!slot.is_writing());
    assert!(!slot.is_poisoned());
    assert_eq!(slot.retire(), Ok(Some(0u8)));
}

#[test]
fn write_under_the_guard_is_read_back() {
    let mut slot = Slot::new(Sharing::Exclusive, Context::Threaded, 10u64);
    assert_eq!(slot.acquire_write(), Ok(()));
    *slot.get_mut() = 11;
    assert_eq!(slot.get(), Ok(&11u64));
    slot.release_write(false);
    assert_eq!(slot.get(), Ok(&11u64));
    assert_eq!(slot.retire(), Ok(Some(11u64)));
}

#[test]
fn cooperative_exclusive_slot_refuses_a_second_accessor() {
    let mut slot = Slot::new(Sharing::Exclusive, Context::Cooperative, 10u64);
    assert_eq!(slot.mint(), Ok(()));
    assert_eq!(slot.acquire_write(), Ok(()));
    assert_eq!(slot.acquire_write(), Err(Error::Borrowed));
    assert_eq!(slot.retire(), Err(Error::Deadlock));
    slot.release_write(false);
    assert_eq!(slot.retire(), Err(Error::StillInUse));
    assert!(slot.is_poisoned());
    slot.release();
    assert_eq!(slot.retire(), Err(Error::Poisoned));
}

#[test]
fn how_retirement_fails_with_a_portal_left() {
    let strategies = [
        (Sharing::ReadOnly, Context::Cooperative, Error::Deadlock, false),
        (Sharing::ReadOnly, Context::Threaded, Error::StillInUse, false),
        (Sharing::ReadWrite, Context::Cooperative, Error::StillInUse, true),
        (Sharing::ReadWrite, Context::Threaded, Error::StillInUse, true),
        (Sharing::Exclusive, Context::Cooperative, Error::StillInUse, true),
        (Sharing::Exclusive, Context::Threaded, Error::StillInUse, true),
    ];
    for (sharing, context, error, poisons) in strategies {
        let mut slot = Slot::new(sharing, context, 1u8);
        assert_eq!(slot.mint(), Ok(()));
        assert_eq!(slot.retire(), Err(error));
        assert_eq!(slot.is_poisoned(), poisons);
        assert!(slot.is_active());
        assert_eq!(slot.strong_count(), 2);
        assert_eq!(slot.get(), Ok(&1u8));
    }
}

#[test]
fn how_retirement_fails_under_a_guard() {
    let strategies = [
        (Sharing::ReadWrite, Context::Cooperative, Error::Deadlock),
        (Sharing::ReadWrite, Context::Threaded, Error::WouldBlock),
        (Sharing::Exclusive, Context::Cooperative, Error::Deadlock),
        (Sharing::Exclusive, Context::Threaded, Error::WouldBlock),
    ];
    for (sharing, context, error) in strategies {
        for portals in 0..2 {
            let mut slot = Slot::new(sharing, context, 1u8);
            if portals == 1 {
                assert_eq!(slot.mint(), Ok(()));
            }
            assert_eq!(slot.acquire_write(), Ok(()));
            assert_eq!(slot.retire(), Err(error));
            assert!(!slot.is_poisoned());
            assert!(slot.is_writing());
            assert!(slot.is_active());
        }
    }
    let mut slot = Slot::new(Sharing::ReadWrite, Context::Threaded, 1u8);
    assert_eq!(slot.acquire_read(), Ok(()));
    assert_eq!(slot.retire(), Err(Error::WouldBlock));
    slot.release_read();
    assert_eq!(slot.retire(), Ok(Some(1u8)));
}

#[test]
fn poisoned_slot_with_the_last_handle_reports_poison() {
    for context in [Context::Cooperative, Context::Threaded] {
        for sharing in [Sharing::ReadWrite, Sharing::Exclusive] {
            let mut slot = Slot::new(sharing, context, 1u8);
            assert_eq!(slot.acquire_write(), Ok(()));
            slot.release_write(true);
            assert!(slot.is_poisoned());
            assert_eq!(slot.acquire_write(), Err(Error::Poisoned));
            assert_eq!(slot.retire(), Err(Error::Poisoned));
            assert_eq!(slot.mint(), Ok(()));
            assert_eq!(slot.retire(), Err(Error::StillInUse));
            slot.release();
            assert_eq!(slot.retire(), Err(Error::Poisoned));
            assert!(slot.is_poisoned());
            assert_eq!(slot.get(), Ok(&1u8));
        }
    }
}

#[test]
fn read_guards_are_refused_on_a_poisoned_slot() {
    let mut slot = Slot::new(Sharing::ReadWrite, Context::Cooperative, 1u8);
    assert_eq!(slot.acquire_write(), Ok(()));
    slot.release_write(true);
    assert_eq!(slot.acquire_read(), Err(Error::Poisoned));
    assert_eq!(slot.readers(), 0);
}
