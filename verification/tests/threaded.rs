use ref_portals::error::Error;
use ref_portals::sync::{Anchor, Portal, RwAnchor, WAnchor};

#[test]
fn threaded_scoped_value_is_read_through_a_portal() {
    let x = "Scoped".to_owned();
    let mut anchor = Anchor::new(&x);
    let portal = anchor.portal().unwrap();
    assert_eq!(**portal.deref(&anchor).unwrap(), "Scoped");
    assert!(std::ptr::eq(*portal.borrow(&anchor).unwrap(), &x));
    portal.release(&mut anchor);
    assert_eq!(anchor.retire(), Ok(Some(&x)));
}

#[test]
fn retiring_an_anchor_with_a_leaked_portal_reports_still_in_use() {
    let x = "Scoped".to_owned();
    let mut anchor = Anchor::new(&x);
    let leaked = Box::leak(Box::new(anchor.portal().unwrap()));
    let outcome = anchor.retire();
    assert_eq!(outcome, Err(Error::StillInUse));
    assert_eq!(
        outcome.err().map(|error| error.message()),
        Some("Anchor still in use (at least one portal exists)")
    );
    assert!(!Error::StillInUse.is_blocking());
    assert!(anchor.slot().is_active());
    assert!(!anchor.slot().is_poisoned());
    assert_eq!(**leaked.deref(&anchor).unwrap(), "Scoped");
    assert_eq!(anchor.slot().strong_count(), 2);
}

#[test]
fn threaded_weak_portal_upgrades_before_retirement_and_not_after() {
    let mut anchor = Anchor::new(9u8);
    let portal = anchor.portal().unwrap();
    let weak = Portal::downgrade(&portal);
    let upgraded = weak.try_upgrade(&mut anchor).unwrap();
    assert_eq!(upgraded.deref(&anchor), Ok(&9u8));
    let cloned = upgraded.clone(&mut anchor).unwrap();
    assert_eq!(anchor.slot().strong_count(), 4);
    cloned.release(&mut anchor);
    upgraded.release(&mut anchor);
    portal.release(&mut anchor);
    assert_eq!(anchor.retire(), Ok(Some(9u8)));
    assert!(weak.clone().try_upgrade(&mut anchor).is_none());
    assert_eq!(weak.upgrade(&mut anchor).err(), Some(Error::Dropped));
    assert_eq!(anchor.weak_portal().upgrade(&mut anchor).err(), Some(Error::Dropped));
    assert_eq!(anchor.retire(), Ok(None));
}

#[test]
fn threaded_replacement_reaches_the_captured_variable() {
    let mut x = "Scoped".to_owned();
    {
        let mut anchor = RwAnchor::new(&mut x);
        let portal = anchor.portal().unwrap();
        let mut guard = portal.write(&mut anchor).unwrap();
        **guard.deref_mut(&mut anchor) = "Replacement".to_owned();
        guard.release(&mut anchor, false);
        let guard = portal.read(&mut anchor).unwrap();
        assert_eq!(**guard.deref(&anchor).unwrap(), "Replacement");
        guard.release(&mut anchor);
        portal.release(&mut anchor);
        assert!(anchor.retire().unwrap().is_some());
    }
    assert_eq!(x, "Replacement");
}

#[test]
fn threaded_conflicts_make_the_caller_wait() {
    let mut anchor = RwAnchor::new(1u32);
    let portal = anchor.portal().unwrap();
    let other = portal.clone(&mut anchor).unwrap();
    let first = portal.read(&mut anchor).unwrap();
    let second = other.read(&mut anchor).unwrap();
    assert_eq!(anchor.slot().readers(), 2);
    assert_eq!(other.write(&mut anchor).err(), Some(Error::WouldBlock));
    assert!(Error::WouldBlock.is_blocking());
    first.release(&mut anchor);
    second.release(&mut anchor);
    let writer = other.write(&mut anchor).unwrap();
    assert_eq!(portal.read(&mut anchor).err(), Some(Error::WouldBlock));
    assert_eq!(portal.write(&mut anchor).err(), Some(Error::WouldBlock));
    writer.release(&mut anchor, false);
    assert!(portal.read(&mut anchor).is_ok());
}

#[test]
fn threaded_retirement_waits_for_a_live_guard() {
    let mut anchor = RwAnchor::new(1u32);
    let portal = anchor.portal().unwrap();
    let guard = portal.write(&mut anchor).unwrap();
    assert_eq!(anchor.retire(), Err(Error::WouldBlock));
    assert!(!anchor.slot().is_poisoned());
    guard.release(&mut anchor, false);
    assert_eq!(anchor.retire(), Err(Error::StillInUse));
    assert!(anchor.slot().is_poisoned());
    assert_eq!(portal.read(&mut anchor).err(), Some(Error::Poisoned));
    assert_eq!(portal.write(&mut anchor).err(), Some(Error::Poisoned));
    portal.release(&mut anchor);
    assert_eq!(anchor.retire(), Err(Error::Poisoned));
}

#[test]
fn threaded_failed_write_poisons_the_anchor() {
    let mut anchor = RwAnchor::new(1u32);
    {
        let portal = anchor.portal().unwrap();
        let guard = portal.write(&mut anchor).unwrap();
        guard.release(&mut anchor, true);
        portal.release(&mut anchor);
    }
    assert!(anchor.slot().is_poisoned());
    assert_eq!(anchor.retire(), Err(Error::Poisoned));
    let weak = anchor.weak_portal();
    let portal = weak.upgrade(&mut anchor).unwrap();
    assert_eq!(portal.read(&mut anchor).err(), Some(Error::Poisoned));
    assert_eq!(anchor.retire(), Err(Error::StillInUse));
}

#[test]
fn exclusive_portal_locks_one_accessor_at_a_time() {
    let mut x = vec![1u8, 2, 3];
    {
        let mut anchor = WAnchor::new(&mut x);
        let portal = anchor.portal().unwrap();
        let other = portal.clone(&mut anchor).unwrap();
        let mut guard = portal.lock(&mut anchor).unwrap();
        assert_eq!(other.lock(&mut anchor).err(), Some(Error::WouldBlock));
        assert_eq!(anchor.slot().readers(), 0);
        guard.deref_mut(&mut anchor).push(4);
        assert_eq!(guard.deref(&anchor).map(|reference| reference.len()), Ok(4));
        guard.release(&mut anchor, false);
        let guard = other.lock(&mut anchor).unwrap();
        guard.release(&mut anchor, false);
        other.release(&mut anchor);
        portal.release(&mut anchor);
        assert!(anchor.retire().unwrap().is_some());
    }
    assert_eq!(x, vec![1u8, 2, 3, 4]);
}

#[test]
fn exclusive_anchor_with_a_leaked_portal_is_poisoned() {
    let mut anchor = WAnchor::new(0i8);
    let leaked = Box::leak(Box::new(anchor.portal().unwrap()));
    assert_eq!(anchor.retire(), Err(Error::StillInUse));
    assert!(anchor.slot().is_poisoned());
    assert_eq!(leaked.lock(&mut anchor).err(), Some(Error::Poisoned));
}

#[test]
fn exclusive_guard_released_during_a_failure_poisons() {
    let mut anchor = WAnchor::new(0i8);
    let portal = anchor.portal().unwrap();
    let weak = portal.downgrade();
    let guard = portal.lock(&mut anchor).unwrap();
    assert_eq!(anchor.retire(), Err(Error::WouldBlock));
    guard.release(&mut anchor, true);
    assert_eq!(portal.lock(&mut anchor).err(), Some(Error::Poisoned));
    portal.release(&mut anchor);
    assert_eq!(anchor.retire(), Err(Error::Poisoned));
    assert!(weak.try_upgrade(&mut anchor).is_some());
    assert!(weak.clone().upgrade(&mut anchor).is_ok());
    assert_eq!(anchor.slot().strong_count(), 3);
}

#[test]
fn exclusive_anchor_without_portals_retires() {
    let mut anchor = WAnchor::new(0i8);
    let weak = anchor.weak_portal();
    assert_eq!(anchor.retire(), Ok(Some(0i8)));
    assert!(weak.try_upgrade(&mut anchor).is_none());
    assert_eq!(weak.upgrade(&mut anchor).err(), Some(Error::Dropped));
    assert_eq!(anchor.portal().err(), Some(Error::Dropped));
}
