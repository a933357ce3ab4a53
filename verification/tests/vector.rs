use std::cell::RefCell;

use alloc_utils::linear_alloc::LinearAlloc;
use alloc_utils::raw_vec::RawVec;
use alloc_utils::system_alloc::SystemAlloc;
use alloc_utils::vec2::Vec;
use alloc_utils::{Alloc, CannotGrow, Error};

// A helper type that increments shared data when it is dropped.
struct DropMe<'a> {
    data: &'a RefCell<u32>,
}

impl<'a> Drop for DropMe<'a> {
    fn drop(&mut self) {
        *self.data.borrow_mut() += 1;
    }
}

#[test]
fn check_one_push_works() {
    let buf = vec![0u8; 43]; // Room for 10 u32s, and extra space.
    let mut alloc = LinearAlloc::new(buf);
    let mut v = Vec::<u32>::new();
    v.push(&mut alloc, 1).expect("v.push(1) failed.");

    assert_eq!(v.as_slice(), &[1]);
}

#[test]
fn check_many_pushes_all_work() {
    let buf = vec![0u8; 43]; // Room for 10 u32s, and extra space.
    let mut alloc = LinearAlloc::new(buf);
    let mut v = Vec::<u32>::new();
    v.push(&mut alloc, 1).expect("v.push(1) failed.");
    v.push(&mut alloc, 2).expect("v.push(2) failed.");
    v.push(&mut alloc, 3).expect("v.push(3) failed.");
    v.push(&mut alloc, 4).expect("v.push(4) failed.");

    assert!(alloc.high_water_mark() > 0);
    assert_eq!(v.as_slice(), &[1, 2, 3, 4]);
    assert!(v.len() <= v.capacity());
}

#[test]
fn insert_then_remove_is_a_roundtrip() {
    let mut alloc = LinearAlloc::new(vec![0u8; 128]);
    let mut v = Vec::<u32>::new();
    v.extend_from_slice(&mut alloc, &[10, 20, 30, 40])
        .expect("extend_from_slice failed.");

    v.insert(&mut alloc, 2, 99).expect("insert failed.");
    let out = v.remove(2);
    assert_eq!(out, 99);
    assert_eq!(v.as_slice(), &[10, 20, 30, 40]);
}

#[test]
fn check_two_vectors_one_alloc() {
    let buf = vec![0u8; 56];
    let mut alloc = LinearAlloc::new(buf);
    let mut v = Vec::<u32>::new();
    let mut w = Vec::<u32>::new();

    v.push(&mut alloc, 1).expect("v.push(1) failed.");
    w.push(&mut alloc, 11).expect("w.push(11) failed.");

    v.push(&mut alloc, 2).expect("v.push(2) failed.");
    w.push(&mut alloc, 22).expect("w.push(22) failed.");

    v.push(&mut alloc, 3).expect("v.push(3) failed.");
    w.push(&mut alloc, 33).expect("w.push(33) failed.");

    v.push(&mut alloc, 4).expect("v.push(4) failed.");
    w.push(&mut alloc, 44).expect("w.push(44) failed.");

    assert_eq!(&[1, 2, 3, 4], v.as_slice());
    assert_eq!(&[11, 22, 33, 44], w.as_slice());
}

#[test]
fn check_drop_called() {
    let buf = vec![0u8; 128];
    let mut alloc = LinearAlloc::new(buf);

    let data = &RefCell::new(0);

    let mut v = Vec::<DropMe>::new();
    v.push(&mut alloc, DropMe { data }).expect("push(..) failed.");
    v.push(&mut alloc, DropMe { data }).expect("push(..) failed.");
    v.push(&mut alloc, DropMe { data }).expect("push(..) failed.");
    v.push(&mut alloc, DropMe { data }).expect("push(..) failed.");
    v.push(&mut alloc, DropMe { data }).expect("push(..) failed.");
    v.push(&mut alloc, DropMe { data }).expect("push(..) failed.");
    v.push(&mut alloc, DropMe { data }).expect("push(..) failed.");
    v.push(&mut alloc, DropMe { data }).expect("push(..) failed.");
    v.push(&mut alloc, DropMe { data }).expect("push(..) failed.");

    assert_eq!(*data.borrow(), 0);
    std::mem::drop(v);
    assert_eq!(*data.borrow(), 9);
}

#[test]
fn check_insert_and_remove() {
    let buf = vec![0u8; 128];
    let mut alloc = LinearAlloc::new(buf);
    let mut v = Vec::<u64>::new();

    v.push(&mut alloc, 2 * 1).expect("push(2*1) failed.");
    v.push(&mut alloc, 2 * 2).expect("push(2*2) failed.");
    v.push(&mut alloc, 2 * 3).expect("push(2*3) failed.");
    v.push(&mut alloc, 2 * 4).expect("push(2*4) failed.");
    v.push(&mut alloc, 2 * 5).expect("push(2*5) failed.");
    v.push(&mut alloc, 2 * 6).expect("push(2*6) failed.");
    v.push(&mut alloc, 2 * 7).expect("push(2*7) failed.");
    assert_eq!(&[2, 4, 6, 8, 10, 12, 14], v.as_slice());

    v.insert(&mut alloc, 3, 1001).expect("v.insert(3, 1001) failed.");
    assert_eq!(&[2, 4, 6, 1001, 8, 10, 12, 14], v.as_slice());

    let corpse = v.remove(4);
    assert_eq!(&[2, 4, 6, 1001, 10, 12, 14], v.as_slice());
    assert_eq!(corpse, 8);
}

#[test]
fn with_capacity_reserves_eagerly() {
    let mut alloc = LinearAlloc::new(vec![0u8; 64]);
    let mut v = Vec::<u32>::with_capacity(&mut alloc, 5).expect("with_capacity failed.");
    assert_eq!(v.capacity(), 5);
    assert_eq!(v.len(), 0);
    assert_eq!(alloc.bytes_in_use(), 20);

    // No growth is needed until the reserved space is filled.
    for k in 0..5 {
        v.push(&mut alloc, k).expect("push failed.");
    }
    assert_eq!(alloc.bytes_in_use(), 20);
    assert_eq!(v.as_slice(), &[0, 1, 2, 3, 4]);
}

#[test]
fn with_capacity_propagates_failures() {
    let mut alloc = LinearAlloc::new(vec![0u8; 8]);
    let r = Vec::<u64>::with_capacity(&mut alloc, 4);
    assert!(matches!(r, Err(Error::AllocErr)));
    assert_eq!(alloc.bytes_in_use(), 0);

    let mut sys = SystemAlloc::new();
    let r2 = Vec::<u64>::with_capacity(&mut sys, usize::MAX);
    assert!(matches!(r2, Err(Error::SizeOverflowErr)));
}

#[test]
fn destroy_returns_memory_to_the_arena() {
    let mut alloc = LinearAlloc::new(vec![0u8; 128]);
    let mut v = Vec::<u64>::new();

    v.push(&mut alloc, 1).expect("push failed.");
    v.push(&mut alloc, 2).expect("push failed.");
    v.push(&mut alloc, 3).expect("push failed.");
    assert!(alloc.bytes_in_use() > 0);

    // A single vector on the arena always grows in place, so its block
    // stays topmost and the teardown hands everything back.
    v.destroy(&mut alloc);
    assert_eq!(alloc.bytes_in_use(), 0);
    assert!(alloc.high_water_mark() > 0);
}

#[test]
fn destroy_tears_down_each_element_once() {
    let mut alloc = LinearAlloc::new(vec![0u8; 128]);
    let data = &RefCell::new(0);

    let mut v = Vec::<DropMe>::new();
    v.push(&mut alloc, DropMe { data }).expect("push failed.");
    v.push(&mut alloc, DropMe { data }).expect("push failed.");
    v.push(&mut alloc, DropMe { data }).expect("push failed.");

    assert_eq!(*data.borrow(), 0);
    v.destroy(&mut alloc);
    assert_eq!(*data.borrow(), 3);
    assert_eq!(alloc.bytes_in_use(), 0);
}

#[test]
fn pop_moves_elements_out_in_reverse() {
    let mut alloc = LinearAlloc::new(vec![0u8; 64]);
    let mut v = Vec::<u32>::new();
    assert_eq!(v.pop(), None);

    v.push(&mut alloc, 5).expect("push failed.");
    v.push(&mut alloc, 6).expect("push failed.");
    assert_eq!(v.pop(), Some(6));
    assert_eq!(v.pop(), Some(5));
    assert_eq!(v.pop(), None);
    assert_eq!(v.len(), 0);
}

#[test]
fn push_failure_leaves_the_vector_intact() {
    // Room for exactly one u32 block: the second growth request fails.
    let mut alloc = LinearAlloc::new(vec![0u8; 4]);
    let mut v = Vec::<u32>::new();

    v.push(&mut alloc, 1).expect("push(1) failed.");
    let r = v.push(&mut alloc, 2);
    assert!(matches!(r, Err(Error::AllocErr)));
    assert_eq!(v.as_slice(), &[1]);
    assert_eq!(v.capacity(), 1);
}

#[test]
fn extend_from_slice_keeps_the_prefix_on_failure() {
    let mut alloc = LinearAlloc::new(vec![0u8; 4]);
    let mut v = Vec::<u32>::new();

    let r = v.extend_from_slice(&mut alloc, &[7, 8, 9]);
    assert!(matches!(r, Err(Error::AllocErr)));
    assert_eq!(v.as_slice(), &[7]);
}

#[test]
fn extend_from_slice_with_system_alloc() {
    let mut sys = SystemAlloc::new();
    let mut v = Vec::<u32>::with_system_alloc();

    v.extend_from_slice(&mut sys, &[1, 2, 3, 4, 5])
        .expect("extend_from_slice failed.");
    assert_eq!(v.as_slice(), &[1, 2, 3, 4, 5]);
}

#[test]
fn as_mut_slice_allows_in_place_updates() {
    let mut alloc = LinearAlloc::new(vec![0u8; 64]);
    let mut v = Vec::<u32>::new();
    v.extend_from_slice(&mut alloc, &[1, 2, 3])
        .expect("extend_from_slice failed.");
    assert_eq!(v.ptr(), 0);

    let s = v.as_mut_slice();
    s[1] = 20;
    assert_eq!(v.as_slice(), &[1, 20, 3]);
    assert_eq!(v.len(), 3);
}

#[test]
fn drain_empties_and_yields_in_order() {
    let mut sys = SystemAlloc::new();
    let mut v = Vec::<u32>::with_system_alloc();
    v.extend_from_slice(&mut sys, &[1, 2, 3, 4, 5])
        .expect("extend_from_slice failed.");

    let mut drain = v.drain();
    assert_eq!(v.len(), 0);
    assert_eq!(drain.size_hint(), (5, Some(5)));
    assert_eq!(drain.next(), Some(1));
    assert_eq!(drain.next_back(), Some(5));
    assert_eq!(drain.next(), Some(2));
    assert_eq!(drain.next(), Some(3));
    assert_eq!(drain.next(), Some(4));
    assert_eq!(drain.next(), None);
    assert_eq!(drain.next_back(), None);

    // The vector is reusable afterwards, with its capacity kept.
    assert!(v.capacity() >= 5);
    v.push(&mut sys, 9).expect("push failed.");
    assert_eq!(v.as_slice(), &[9]);
}

#[test]
fn drain_drops_unconsumed_elements() {
    let mut alloc = LinearAlloc::new(vec![0u8; 128]);
    let data = &RefCell::new(0);

    let mut v = Vec::<DropMe>::new();
    v.push(&mut alloc, DropMe { data }).expect("push failed.");
    v.push(&mut alloc, DropMe { data }).expect("push failed.");
    v.push(&mut alloc, DropMe { data }).expect("push failed.");

    let mut drain = v.drain();
    let first = drain.next();
    assert_eq!(*data.borrow(), 0);
    std::mem::drop(first);
    assert_eq!(*data.borrow(), 1);
    std::mem::drop(drain);
    assert_eq!(*data.borrow(), 3);
    assert_eq!(v.len(), 0);
}

#[test]
fn into_iter_is_double_ended_and_releases_storage() {
    let mut alloc = LinearAlloc::new(vec![0u8; 64]);
    let mut v = Vec::<u32>::new();
    v.push(&mut alloc, 1).expect("push failed.");
    v.push(&mut alloc, 2).expect("push failed.");
    v.push(&mut alloc, 3).expect("push failed.");

    let mut iter = v.into_iter();
    assert_eq!(iter.size_hint(), (3, Some(3)));
    assert_eq!(iter.next(), Some(1));
    assert_eq!(iter.next_back(), Some(3));
    assert_eq!(iter.next(), Some(2));
    assert_eq!(iter.next(), None);

    iter.destroy(&mut alloc);
    assert_eq!(alloc.bytes_in_use(), 0);
}

#[test]
fn raw_vec_reserves_eagerly() {
    let mut alloc = LinearAlloc::new(vec![0u8; 64]);
    let rv = RawVec::<u32>::with_capacity(&mut alloc, 5).expect("with_capacity failed.");

    assert_eq!(rv.capacity(), 5);
    assert_eq!(rv.ptr(), 0);
    assert_eq!(rv.alloc_layout(), (20, 4));
    assert_eq!(alloc.bytes_in_use(), 20);

    rv.destroy(&mut alloc);
    assert_eq!(alloc.bytes_in_use(), 0);
}

#[test]
fn raw_vec_grow_doubles() {
    let mut alloc = LinearAlloc::new(vec![0u8; 64]);
    let mut rv = RawVec::<u32>::new();
    assert_eq!(rv.capacity(), 0);

    rv.grow(&mut alloc).expect("grow failed.");
    assert_eq!(rv.capacity(), 1);
    rv.grow(&mut alloc).expect("grow failed.");
    assert_eq!(rv.capacity(), 2);
    rv.grow(&mut alloc).expect("grow failed.");
    assert_eq!(rv.capacity(), 4);

    // A lone buffer grows in place: the handle never moves.
    assert_eq!(rv.ptr(), 0);
    assert_eq!(alloc.bytes_in_use(), 16);
}

#[test]
fn reserve_reports_size_overflow() {
    let mut sys = SystemAlloc::new();
    let r = RawVec::<u64>::with_capacity(&mut sys, usize::MAX);
    assert!(matches!(r, Err(Error::SizeOverflowErr)));
}

#[test]
fn system_alloc_hands_out_fresh_blocks() {
    let mut sys = SystemAlloc::new();

    let a = sys.allocate(8, 8).expect("allocate failed.");
    let b = sys.allocate(8, 8).expect("allocate failed.");
    assert_ne!(a, b);

    // Frees are absorbed and in-place growth is refused.
    sys.dealloc(b, 8);
    let c = sys.allocate(8, 8).expect("allocate failed.");
    assert_ne!(b, c);
    assert!(matches!(sys.grow_in_place(c, 8, 16), Err(CannotGrow)));
    assert!(matches!(sys.shrink_in_place(c, 8, 4), Err(CannotGrow)));
    assert_eq!(sys.usable_size(13), (13, 13));
}
