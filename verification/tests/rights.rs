use virtfs_pipe::{HandleRights, Right, Rights};

#[test]
fn empty_rights_hold_nothing() {
    let none = Rights::empty();
    assert!(none.is_empty());
    assert_eq!(none.bits(), 0);
    assert!(!none.has(Right::FdRead));
    assert!(!none.has(Right::SockShutdown));
}

#[test]
fn a_single_right_sets_its_bit() {
    assert_eq!(Rights::only(Right::FdDatasync).bits(), 1);
    assert_eq!(Rights::only(Right::FdRead).bits(), 2);
    assert_eq!(Rights::only(Right::FdWrite).bits(), 0x40);
    assert_eq!(Rights::only(Right::FdFilestatGet).bits(), 0x20_0000);
    assert_eq!(Rights::only(Right::PollFdReadwrite).bits(), 0x800_0000);
    assert_eq!(Rights::only(Right::SockShutdown).bits(), 0x1000_0000);
    let read = Rights::only(Right::FdRead);
    assert!(read.has(Right::FdRead));
    assert!(!read.has(Right::FdWrite));
    assert!(!read.is_empty());
}

#[test]
fn every_right_has_a_position_of_its_own() {
    assert_eq!(Right::FdDatasync.position(), 0);
    assert_eq!(Right::FdSeek.position(), 2);
    assert_eq!(Right::FdFdstatSetFlags.position(), 3);
    assert_eq!(Right::FdSync.position(), 4);
    assert_eq!(Right::PathOpen.position(), 13);
    assert_eq!(Right::FdFilestatGet.position(), 21);
    assert_eq!(Right::PollFdReadwrite.position(), 27);
    assert_eq!(Right::SockShutdown.position(), 28);
}

#[test]
fn union_holds_the_rights_of_both() {
    let a = Rights::only(Right::FdRead).with(Right::FdSync);
    let b = Rights::only(Right::FdSync).with(Right::FdWrite);
    let both = a.union(b);
    assert!(both.has(Right::FdRead));
    assert!(both.has(Right::FdSync));
    assert!(both.has(Right::FdWrite));
    assert!(!both.has(Right::FdSeek));
    assert_eq!(both.bits(), 0x52);
    assert_eq!(a.union(Rights::empty()), a);
    assert_eq!(a.union(a), a);
    assert_eq!(a.union(b), b.union(a));
}

#[test]
fn with_adds_one_right() {
    let a = Rights::empty().with(Right::FdTell);
    assert_eq!(a, Rights::only(Right::FdTell));
    assert_eq!(a.with(Right::FdTell), a);
    assert_eq!(a.with(Right::FdRead).bits(), 0x22);
}

#[test]
fn handle_rights_keep_both_sets() {
    let base = Rights::only(Right::FdRead);
    let inheriting = Rights::only(Right::PathOpen);
    let rights = HandleRights::new(base, inheriting);
    assert_eq!(rights.base(), base);
    assert_eq!(rights.inheriting(), inheriting);
    assert_eq!(rights, HandleRights { base, inheriting });
    let plain = HandleRights::from_base(base);
    assert_eq!(plain.base(), base);
    assert!(plain.inheriting().is_empty());
    let none = HandleRights::empty();
    assert!(none.base().is_empty());
    assert!(none.inheriting().is_empty());
    assert_ne!(rights, plain);
}
