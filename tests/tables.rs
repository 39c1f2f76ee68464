use libinger::localstores::{alloc_localstore, SlotPool};
use libinger::whitelist::{Whitelist, NOT_FOUND};

#[test]
fn pool_hands_out_each_slot_once() {
    let mut p = SlotPool::prealloc(2);
    assert_eq!(p.capacity(), 2);
    assert_eq!(p.checkout(), Some(0));
    assert_eq!(p.checkout(), Some(1));
    assert_eq!(p.checkout(), None);
    p.release(0);
    assert_eq!(p.checkout(), Some(0));
    assert_eq!(p.checkout(), None);
}

#[test]
fn localstores_fill_on_first_use() {
    let mut stores: Option<SlotPool> = None;
    assert_eq!(alloc_localstore(&mut stores, 3), Some(0));
    assert_eq!(stores.as_ref().unwrap().capacity(), 3);
    assert_eq!(alloc_localstore(&mut stores, 3), Some(1));
    assert_eq!(alloc_localstore(&mut stores, 3), Some(2));
    assert_eq!(alloc_localstore(&mut stores, 3), None);
}

#[test]
fn empty_pool_has_nothing_to_hand_out() {
    let mut stores: Option<SlotPool> = None;
    assert_eq!(alloc_localstore(&mut stores, 0), None);
}

#[test]
fn whitelist_first_insert_wins() {
    let mut w = Whitelist::new();
    w.insert(b"malloc", 0x1000);
    w.insert(b"malloc", 0x2000);
    w.insert(b"free", 0x3000);
    assert_eq!(w.get(Some(b"malloc")), 0x1000);
    assert_eq!(w.get(Some(b"free")), 0x3000);
}

#[test]
fn whitelist_unknown_is_sentinel() {
    let mut w = Whitelist::new();
    assert_eq!(w.get(Some(b"calloc")), NOT_FOUND);
    w.insert(b"malloc", 0);
    assert_eq!(w.get(Some(b"malloc")), 0);
    assert_eq!(w.get(Some(b"mallo")), NOT_FOUND);
    assert_eq!(w.get(None), usize::MAX);
    assert_ne!(NOT_FOUND, 0);
}
