use ref_portals::error::Error;

#[test]
fn every_error_reports_its_own_text() {
    assert_eq!(
        Error::StillInUse.message(),
        "Anchor still in use (at least one portal exists)"
    );
    assert_eq!(Error::Poisoned.message(), "Anchor poisoned");
    assert_eq!(Error::Dropped.message(), "Anchor dropped");
    assert_eq!(Error::Deadlock.message(), "Anchor dropped while borrowed from");
    assert_eq!(Error::Borrowed.message(), "Anchor already borrowed");
    assert_eq!(Error::WouldBlock.message(), "Anchor locked");
}

#[test]
fn only_deadlock_and_would_block_tell_the_caller_to_wait() {
    assert!(Error::Deadlock.is_blocking());
    assert!(Error::WouldBlock.is_blocking());
    assert!(!Error::StillInUse.is_blocking());
    assert!(!Error::Poisoned.is_blocking());
    assert!(!Error::Dropped.is_blocking());
    assert!(!Error::Borrowed.is_blocking());
}

#[test]
fn errors_compare_by_kind() {
    assert_eq!(Error::Poisoned, Error::Poisoned);
    assert_ne!(Error::Poisoned, Error::Dropped);
    let copy = Error::StillInUse;
    assert_eq!(copy.clone(), Error::StillInUse);
}
