use std::cell::Cell;
use std::rc::Rc;

use stackvec::{ArrayString, ArrayVec, CapacityError};

struct Counted {
    drops: Rc<Cell<usize>>,
    value: u32,
}

impl Drop for Counted {
    fn drop(&mut self) {
        self.drops.set(self.drops.get() + 1);
    }
}

fn counted(drops: &Rc<Cell<usize>>, value: u32) -> Counted {
    Counted { drops: Rc::clone(drops), value }
}

#[test]
fn push_pop_sequence_keeps_stack_order() {
    let mut v = ArrayVec::<u32, 4>::new();
    v.push(1);
    v.push(2);
    assert_eq!(v.pop(), Some(2));
    v.push(3);
    v.push(4);
    v.push(5);
    assert_eq!(v.len(), 4);
    assert_eq!(&*v, &[1, 3, 4, 5]);
    assert_eq!(v.pop(), Some(5));
    assert_eq!(v.pop(), Some(4));
    assert_eq!(v.len(), 2);
    assert_eq!(v.as_slice(), &[1, 3]);
}

#[test]
fn pop_on_empty_gives_nothing() {
    let mut v = ArrayVec::<u32, 3>::new();
    assert_eq!(v.pop(), None);
    assert!(v.is_empty());
}

#[test]
fn try_push_on_full_hands_the_value_back() {
    let mut v = ArrayVec::<String, 2>::new();
    assert!(v.try_push(String::from("a")).is_ok());
    assert!(v.try_push(String::from("b")).is_ok());
    assert!(v.is_full());
    match v.try_push(String::from("c")) {
        Ok(()) => panic!("a full vector took a value"),
        Err(e) => assert_eq!(e.element(), "c"),
    }
    assert_eq!(v.len(), 2);
    assert_eq!(v.as_slice(), &[String::from("a"), String::from("b")]);
}

#[test]
fn capacity_error_keeps_its_value() {
    let e = CapacityError::new(7u8);
    assert_eq!(e.element(), 7);
}

#[test]
fn remaining_capacity_counts_down() {
    let mut v = ArrayVec::<u8, 3>::new();
    assert_eq!(v.remaining_capacity(), 3);
    v.push(1);
    assert_eq!(v.remaining_capacity(), 2);
    v.push(2);
    v.push(3);
    assert_eq!(v.remaining_capacity(), 0);
    assert!(v.is_full());
}

#[test]
fn truncate_keeps_the_front() {
    let mut v = ArrayVec::<u32, 8>::from_vec(vec![1, 2, 3, 4, 5]);
    v.truncate(7);
    assert_eq!(v.len(), 5);
    v.truncate(5);
    assert_eq!(v.len(), 5);
    v.truncate(2);
    assert_eq!(v.len(), 2);
    assert_eq!(v.as_slice(), &[1, 2]);
    v.truncate(0);
    assert!(v.is_empty());
}

#[test]
fn truncate_drops_only_the_tail() {
    let drops = Rc::new(Cell::new(0));
    let mut v = ArrayVec::<Counted, 6>::new();
    for i in 0..5 {
        v.push(counted(&drops, i));
    }
    v.truncate(2);
    assert_eq!(drops.get(), 3);
    assert_eq!(v[0].value, 0);
    assert_eq!(v[1].value, 1);
    drop(v);
    assert_eq!(drops.get(), 5);
}

#[test]
fn into_inner_round_trip() {
    let mut v = ArrayVec::<u32, 3>::new();
    v.push(7);
    v.push(8);
    v.push(9);
    match v.into_inner() {
        Ok(a) => assert_eq!(a, [7, 8, 9]),
        Err(_) => panic!("a full vector was refused"),
    }
}

#[test]
fn into_inner_on_partial_gives_the_vector_back() {
    let mut v = ArrayVec::<u32, 3>::new();
    v.push(7);
    v.push(8);
    match v.into_inner() {
        Ok(_) => panic!("a partial vector became an array"),
        Err(back) => {
            assert_eq!(back.len(), 2);
            assert_eq!(back.as_slice(), &[7, 8]);
        }
    }
}

#[test]
fn consuming_iterator_interleaves() {
    let v = ArrayVec::<u32, 3>::from_vec(vec![0, 1, 2]);
    let mut it = v.into_iter();
    assert_eq!(it.next(), Some(0));
    assert_eq!(it.next_back(), Some(2));
    assert_eq!(it.next_back(), Some(1));
    assert_eq!(it.next(), None);
    assert_eq!(it.next_back(), None);
}

#[test]
fn consuming_iterator_reports_what_is_left() {
    let v = ArrayVec::<u32, 5>::from_vec(vec![1, 2, 3, 4]);
    let mut it = v.into_iter();
    assert_eq!(it.len(), 4);
    it.next();
    it.next_back();
    assert_eq!(it.len(), 2);
    assert_eq!(it.size_hint(), (2, Some(2)));
}

#[test]
fn dropping_a_partly_used_iterator_drops_each_value_once() {
    let drops = Rc::new(Cell::new(0));
    let mut v = ArrayVec::<Counted, 5>::new();
    for i in 0..5 {
        v.push(counted(&drops, i));
    }
    let mut it = v.into_iter();
    let first = it.next().unwrap();
    let last = it.next_back().unwrap();
    assert_eq!(first.value, 0);
    assert_eq!(last.value, 4);
    drop(it);
    assert_eq!(drops.get(), 3);
    drop(first);
    drop(last);
    assert_eq!(drops.get(), 5);
}

#[test]
fn bulk_construction_caps_at_capacity() {
    let source: Vec<String> = std::iter::repeat(String::from("x")).take(100).collect();
    let v = ArrayVec::<String, 10>::from_vec(source);
    assert_eq!(v.len(), 10);
    assert!(v.iter().all(|s| s == "x"));

    let v = ArrayVec::<u32, 3>::from_vec(vec![5, 6, 7, 8, 9]);
    assert_eq!(v.as_slice(), &[5, 6, 7]);
}

#[test]
fn extend_from_fills_the_remaining_room() {
    let mut v = ArrayVec::<u32, 4>::new();
    v.push(1);
    v.extend_from(vec![2, 3, 4, 5, 6]);
    assert_eq!(v.as_slice(), &[1, 2, 3, 4]);
    v.extend_from(vec![7]);
    assert_eq!(v.as_slice(), &[1, 2, 3, 4]);
}

#[test]
fn insert_at_the_end_is_push() {
    let mut a = ArrayVec::<u32, 4>::from_vec(vec![1, 2]);
    let mut b = ArrayVec::<u32, 4>::from_vec(vec![1, 2]);
    a.insert(2, 9);
    b.push(9);
    assert_eq!(a.as_slice(), b.as_slice());
}

#[test]
fn insert_shifts_the_tail() {
    let mut v = ArrayVec::<u32, 5>::from_vec(vec![1, 2, 3]);
    v.insert(0, 0);
    v.insert(2, 9);
    assert_eq!(v.as_slice(), &[0, 1, 9, 2, 3]);
}

#[test]
fn try_insert_on_full_changes_nothing() {
    let mut v = ArrayVec::<u32, 2>::from_vec(vec![1, 2]);
    match v.try_insert(1, 5) {
        Ok(()) => panic!("a full vector took a value"),
        Err(e) => assert_eq!(e.element(), 5),
    }
    assert_eq!(v.as_slice(), &[1, 2]);
    let mut w = ArrayVec::<u32, 3>::from_vec(vec![1, 2]);
    assert!(w.try_insert(1, 5).is_ok());
    assert_eq!(w.as_slice(), &[1, 5, 2]);
}

#[test]
fn swap_remove_moves_the_last_value_in() {
    let mut v = ArrayVec::<u32, 5>::from_vec(vec![10, 20, 30, 40]);
    assert_eq!(v.swap_remove(1), 20);
    assert_eq!(v.as_slice(), &[10, 40, 30]);
    assert_eq!(v.swap_pop(2), Some(30));
    assert_eq!(v.as_slice(), &[10, 40]);
    assert_eq!(v.swap_pop(2), None);
    assert_eq!(v.as_slice(), &[10, 40]);
}

#[test]
fn try_extend_from_slice_is_all_or_nothing() {
    let mut v = ArrayVec::<u8, 4>::new();
    v.push(1);
    assert!(v.try_extend_from_slice(&[2, 3]).is_ok());
    assert_eq!(v.as_slice(), &[1, 2, 3]);
    assert!(v.try_extend_from_slice(&[4, 5]).is_err());
    assert_eq!(v.as_slice(), &[1, 2, 3]);
    assert!(v.try_extend_from_slice(&[4]).is_ok());
    assert!(v.is_full());
}

#[test]
fn borrowing_iterators_walk_the_values() {
    let mut v = ArrayVec::<u32, 4>::from_vec(vec![1, 2, 3]);
    let seen: Vec<u32> = v.iter().copied().collect();
    assert_eq!(seen, vec![1, 2, 3]);
    for x in v.iter_mut() {
        *x *= 10;
    }
    assert_eq!(v.as_slice(), &[10, 20, 30]);
    v.as_mut_slice()[0] = 5;
    v[1] = 6;
    assert_eq!(&*v, &[5, 6, 30]);
}

#[test]
fn zero_capacity_is_always_full() {
    let mut v = ArrayVec::<String, 0>::default();
    assert!(v.is_full());
    assert!(v.is_empty());
    assert_eq!(v.capacity(), 0);
    assert!(v.try_push(String::from("a")).is_err());
    let w = ArrayVec::<String, 0>::from_vec(vec![String::from("b"), String::from("c")]);
    assert_eq!(w.len(), 0);
    assert!(w.is_full());
    drop(w);
}

#[test]
fn clear_empties_the_vector() {
    let mut v = ArrayVec::<u32, 3>::from_vec(vec![1, 2, 3]);
    v.clear();
    assert!(v.is_empty());
    assert_eq!(v.remaining_capacity(), 3);
}

#[test]
fn string_push_stores_utf8_bytes() {
    let mut s = ArrayString::<4>::new();
    assert_eq!(s.capacity(), 4);
    s.push('a');
    assert_eq!(s.as_bytes(), b"a");
    assert!(s.try_push('\u{e9}').is_ok());
    assert_eq!(s.as_bytes(), &[b'a', 0xc3, 0xa9]);
    assert_eq!(s.len(), 3);
    assert_eq!(s.remaining_capacity(), 1);
    match s.try_push('\u{20ac}') {
        Ok(()) => panic!("three bytes went into one byte of room"),
        Err(e) => assert_eq!(e.element(), '\u{20ac}'),
    }
    assert_eq!(s.len(), 3);
    s.push('z');
    assert!(s.is_full());
}

#[test]
fn string_default_is_empty() {
    let s = ArrayString::<2>::default();
    assert_eq!(s.len(), 0);
    assert!(!s.is_full());
}

#[test]
fn string_encodes_every_width_like_std() {
    for c in ['a', '\u{7f}', '\u{80}', '\u{e9}', '\u{7ff}', '\u{800}', '\u{20ac}', '\u{ffff}', '\u{10000}', '\u{1f600}', '\u{10ffff}'] {
        let mut s = ArrayString::<4>::new();
        s.push(c);
        let mut buf = [0u8; 4];
        assert_eq!(s.as_bytes(), c.encode_utf8(&mut buf).as_bytes());
    }
}

#[test]
fn string_four_byte_char_needs_four_bytes_of_room() {
    let mut s = ArrayString::<5>::new();
    s.push('x');
    assert!(s.try_push('\u{1f600}').is_ok());
    assert_eq!(s.as_bytes(), &[b'x', 0xf0, 0x9f, 0x98, 0x80]);
    assert!(s.try_push('y').is_err());
    assert_eq!(s.len(), 5);
}

#[test]
fn for_loops_over_borrowed_vectors() {
    let mut v = ArrayVec::<u32, 4>::from_vec(vec![1, 2, 3]);
    let mut sum = 0;
    for x in &v {
        sum += *x;
    }
    assert_eq!(sum, 6);
    for x in &mut v {
        *x += 1;
    }
    assert_eq!(v.as_slice(), &[2, 3, 4]);
}
