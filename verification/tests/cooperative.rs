use ref_portals::error::Error;
use ref_portals::rc::{Anchor, Portal, RwAnchor};

#[test]
fn scoped_value_is_read_through_a_portal_and_the_anchor_retires() {
    let x = "Scoped".to_owned();
    let mut anchor = Anchor::new(&x);
    let portal = anchor.portal().unwrap();
    let observed = {
        let self_owned = || format!("{}", *portal.deref(&anchor).unwrap());
        self_owned()
    };
    assert_eq!(observed, "Scoped");
    portal.release(&mut anchor);
    assert_eq!(anchor.retire(), Ok(Some(&x)));
    assert!(!anchor.slot().is_active());
}

#[test]
fn portal_reads_the_very_value_that_was_captured() {
    let x = "Scoped".to_owned();
    let mut anchor = Anchor::new(&x);
    let portal = anchor.portal().unwrap();
    let read: &String = *portal.deref(&anchor).unwrap();
    assert!(std::ptr::eq(read, &x));
    let borrowed: &String = *portal.borrow(&anchor).unwrap();
    assert!(std::ptr::eq(borrowed, &x));
}

#[test]
fn new_anchor_holds_the_only_strong_handle() {
    let anchor = Anchor::new(7u32);
    assert_eq!(anchor.slot().strong_count(), 1);
    assert_eq!(anchor.slot().readers(), 0);
    assert!(anchor.slot().is_active());
    assert!(!anchor.slot().is_poisoned());
    assert!(!anchor.slot().is_writing());
}

#[test]
fn portals_are_counted_one_by_one() {
    let mut anchor = Anchor::new(7u32);
    let first = anchor.portal().unwrap();
    assert_eq!(anchor.slot().strong_count(), 2);
    let second = first.clone(&mut anchor).unwrap();
    assert_eq!(anchor.slot().strong_count(), 3);
    first.release(&mut anchor);
    assert_eq!(anchor.slot().strong_count(), 2);
    second.release(&mut anchor);
    assert_eq!(anchor.slot().strong_count(), 1);
}

#[test]
fn retiring_an_immutable_anchor_with_a_portal_blocks_for_good() {
    let x = "Scoped".to_owned();
    let mut anchor = Anchor::new(&x);
    let portal = anchor.portal().unwrap();
    assert_eq!(anchor.retire(), Err(Error::Deadlock));
    assert!(Error::Deadlock.is_blocking());
    assert!(anchor.slot().is_active());
    assert_eq!(**portal.deref(&anchor).unwrap(), "Scoped");
    assert!(!anchor.slot().is_poisoned());
}

#[test]
fn weak_portals_do_not_keep_an_anchor_from_retiring() {
    let mut anchor = Anchor::new(5i64);
    let weak = anchor.weak_portal();
    let other = weak.clone();
    assert_eq!(anchor.slot().strong_count(), 1);
    assert_eq!(anchor.retire(), Ok(Some(5i64)));
    assert!(other.try_upgrade(&mut anchor).is_none());
}

#[test]
fn weak_portal_upgrades_before_retirement_and_not_after() {
    let mut anchor = Anchor::new(5i64);
    let portal = anchor.portal().unwrap();
    let weak = Portal::downgrade(&portal);
    assert_eq!(anchor.slot().strong_count(), 2);
    let upgraded = weak.upgrade(&mut anchor).unwrap();
    assert_eq!(anchor.slot().strong_count(), 3);
    assert_eq!(upgraded.deref(&anchor), Ok(&5i64));
    upgraded.release(&mut anchor);
    portal.release(&mut anchor);
    assert_eq!(anchor.retire(), Ok(Some(5i64)));
    assert_eq!(weak.upgrade(&mut anchor).err(), Some(Error::Dropped));
    assert!(weak.try_upgrade(&mut anchor).is_none());
    assert_eq!(anchor.slot().strong_count(), 0);
}

#[test]
fn retired_anchor_mints_nothing_and_reads_nothing() {
    let mut anchor = Anchor::new(5i64);
    let portal = anchor.portal().unwrap();
    let stale = Portal::downgrade(&portal);
    portal.release(&mut anchor);
    assert_eq!(anchor.retire(), Ok(Some(5i64)));
    assert_eq!(anchor.portal().err(), Some(Error::Dropped));
    assert_eq!(stale.upgrade(&mut anchor).err(), Some(Error::Dropped));
    assert_eq!(anchor.slot().get(), Err(Error::Dropped));
}

#[test]
fn retirement_happens_once() {
    let mut anchor = Anchor::new(5i64);
    assert_eq!(anchor.retire(), Ok(Some(5i64)));
    assert_eq!(anchor.retire(), Ok(None));
    assert_eq!(anchor.retire(), Ok(None));
    assert_eq!(anchor.slot().strong_count(), 0);
}

#[test]
fn replacement_written_through_a_guard_reaches_the_captured_variable() {
    let mut x = "Scoped".to_owned();
    {
        let mut anchor = RwAnchor::new(&mut x);
        let portal = anchor.portal().unwrap();
        let seen = {
            let guard = portal.borrow(&mut anchor).unwrap();
            let seen = format!("{}", *guard.deref(&anchor).unwrap());
            guard.release(&mut anchor);
            seen
        };
        assert_eq!(seen, "Scoped");
        let mut guard = portal.borrow_mut(&mut anchor).unwrap();
        **guard.deref_mut(&mut anchor) = "Replacement".to_owned();
        assert_eq!(**guard.deref(&anchor).unwrap(), "Replacement");
        guard.release(&mut anchor, false);
        portal.release(&mut anchor);
        let handed_back = anchor.retire().unwrap();
        assert_eq!(handed_back.map(|reference| reference.clone()), Some("Replacement".to_owned()));
    }
    assert_eq!(x, "Replacement");
}

#[test]
fn retiring_a_mutable_anchor_with_a_leaked_portal_reports_it() {
    let mut x = "Scoped".to_owned();
    let mut anchor = RwAnchor::new(&mut x);
    let leaked = Box::leak(Box::new(anchor.portal().unwrap()));
    assert_eq!(anchor.retire().err(), Some(Error::StillInUse));
    assert_eq!(
        Error::StillInUse.message(),
        "Anchor still in use (at least one portal exists)"
    );
    assert!(anchor.slot().is_poisoned());
    assert!(anchor.slot().is_active());
    assert_eq!(leaked.borrow_mut(&mut anchor).err(), Some(Error::Poisoned));
    assert_eq!(leaked.borrow(&mut anchor).err(), Some(Error::Poisoned));
}

#[test]
fn overlapping_reads_are_granted_and_counted() {
    let mut anchor = RwAnchor::new(3u16);
    let portal = anchor.portal().unwrap();
    let first = portal.borrow(&mut anchor).unwrap();
    let second = portal.borrow(&mut anchor).unwrap();
    assert_eq!(anchor.slot().readers(), 2);
    assert_eq!(first.deref(&anchor), Ok(&3u16));
    assert_eq!(second.deref(&anchor), Ok(&3u16));
    first.release(&mut anchor);
    assert_eq!(anchor.slot().readers(), 1);
    second.release(&mut anchor);
    assert_eq!(anchor.slot().readers(), 0);
}

#[test]
fn conflicting_borrows_fail_at_once() {
    let mut anchor = RwAnchor::new(3u16);
    let portal = anchor.portal().unwrap();
    let reader = portal.borrow(&mut anchor).unwrap();
    assert_eq!(portal.borrow_mut(&mut anchor).err(), Some(Error::Borrowed));
    assert!(!anchor.slot().is_writing());
    reader.release(&mut anchor);
    let writer = portal.borrow_mut(&mut anchor).unwrap();
    assert!(anchor.slot().is_writing());
    assert_eq!(portal.borrow(&mut anchor).err(), Some(Error::Borrowed));
    assert_eq!(portal.borrow_mut(&mut anchor).err(), Some(Error::Borrowed));
    assert_eq!(anchor.slot().readers(), 0);
    writer.release(&mut anchor, false);
    assert!(!anchor.slot().is_writing());
    assert!(!anchor.slot().is_poisoned());
}

#[test]
fn retiring_under_a_live_borrow_blocks_for_good() {
    let mut anchor = RwAnchor::new(3u16);
    let portal = anchor.portal().unwrap();
    let guard = portal.borrow(&mut anchor).unwrap();
    assert_eq!(anchor.retire(), Err(Error::Deadlock));
    assert!(!anchor.slot().is_poisoned());
    assert_eq!(guard.deref(&anchor), Ok(&3u16));
    guard.release(&mut anchor);
    let guard = portal.borrow_mut(&mut anchor).unwrap();
    assert_eq!(anchor.retire(), Err(Error::Deadlock));
    assert!(!anchor.slot().is_poisoned());
    guard.release(&mut anchor, false);
}

#[test]
fn guard_released_during_a_failure_poisons_the_anchor() {
    let mut anchor = RwAnchor::new(3u16);
    {
        let portal = anchor.portal().unwrap();
        let guard = portal.borrow_mut(&mut anchor).unwrap();
        guard.release(&mut anchor, true);
        assert!(anchor.slot().is_poisoned());
        assert_eq!(portal.borrow(&mut anchor).err(), Some(Error::Poisoned));
        assert_eq!(portal.borrow_mut(&mut anchor).err(), Some(Error::Poisoned));
        portal.release(&mut anchor);
    }
    assert_eq!(anchor.slot().strong_count(), 1);
    assert_eq!(anchor.retire(), Err(Error::Poisoned));
    assert_eq!(Error::Poisoned.message(), "Anchor poisoned");
    assert_eq!(anchor.retire(), Err(Error::Poisoned));
    assert!(anchor.slot().is_active());
}

#[test]
fn poisoned_anchor_with_a_portal_left_is_still_in_use() {
    let mut anchor = RwAnchor::new(3u16);
    let portal = anchor.portal().unwrap();
    let guard = portal.borrow_mut(&mut anchor).unwrap();
    guard.release(&mut anchor, true);
    assert_eq!(anchor.retire(), Err(Error::StillInUse));
    assert_eq!(portal.borrow_mut(&mut anchor).err(), Some(Error::Poisoned));
}

#[test]
fn poisoned_anchor_still_upgrades_weak_portals() {
    let mut anchor = RwAnchor::new(3u16);
    let portal = anchor.portal().unwrap();
    let weak = portal.downgrade();
    let guard = portal.borrow_mut(&mut anchor).unwrap();
    guard.release(&mut anchor, true);
    let upgraded = weak.try_upgrade(&mut anchor);
    assert!(upgraded.is_some());
    assert_eq!(anchor.slot().strong_count(), 3);
    let again = anchor.weak_portal().upgrade(&mut anchor);
    assert!(again.is_ok());
}

#[test]
fn read_guard_released_during_a_failure_does_not_poison() {
    let mut anchor = RwAnchor::new(3u16);
    let portal = anchor.portal().unwrap();
    let guard = portal.borrow(&mut anchor).unwrap();
    guard.release(&mut anchor);
    portal.release(&mut anchor);
    assert_eq!(anchor.retire(), Ok(Some(3u16)));
}

#[test]
fn mutable_anchor_without_portals_retires() {
    let mut anchor = RwAnchor::new(3u16);
    let weak = anchor.weak_portal();
    assert_eq!(anchor.retire(), Ok(Some(3u16)));
    assert_eq!(weak.clone().upgrade(&mut anchor).err(), Some(Error::Dropped));
    assert_eq!(Error::Dropped.message(), "Anchor dropped");
}
