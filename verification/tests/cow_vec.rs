use std::cell::Cell;
use std::rc::Rc;

use cowvec::elements::{duplicate, slices_equal};
use cowvec::CowVec;

/// An element that counts how often it is cloned and dropped.
struct Tally {
    id: u32,
    clones: Rc<Cell<usize>>,
    drops: Rc<Cell<usize>>,
}

impl Clone for Tally {
    fn clone(&self) -> Self {
        self.clones.set(self.clones.get() + 1);
        Tally { id: self.id, clones: self.clones.clone(), drops: self.drops.clone() }
    }
}

impl Drop for Tally {
    fn drop(&mut self) {
        self.drops.set(self.drops.get() + 1);
    }
}

fn tallies(n: u32, clones: &Rc<Cell<usize>>, drops: &Rc<Cell<usize>>) -> Vec<Tally> {
    let mut out = Vec::new();
    for id in 0..n {
        out.push(Tally { id, clones: clones.clone(), drops: drops.clone() });
    }
    out
}

fn ids(items: &[Tally]) -> Vec<u32> {
    let mut out = Vec::new();
    for item in items {
        out.push(item.id);
    }
    out
}

#[test]
fn borrowed() {
    let arr = &[1, 2, 3, 4, 5];
    let v = CowVec::borrowed(arr);

    assert_eq!(arr, &*v);
}

#[test]
fn owned() {
    let arr = vec![1, 2, 3, 4, 5];
    let v = CowVec::owned(arr.clone());

    assert_eq!(arr, &*v);
}

#[test]
fn borrowed_reads_back_any_slice() {
    let empty: &[u8] = &[];
    assert_eq!(CowVec::borrowed(empty).as_slice(), empty);
    let one: &[i64] = &[-7];
    assert_eq!(CowVec::borrowed(one).as_slice(), one);
    let words: &[&str] = &["a", "bc", "", "def"];
    let c = CowVec::borrowed(words);
    assert_eq!(c.as_slice(), words);
    assert_eq!(c.len(), 4);
    assert_eq!(c[1], "bc");
}

#[test]
fn owned_reads_back_the_buffer() {
    let v = CowVec::owned(vec![10u16, 20, 30]);
    assert_eq!(v.as_slice(), &[10, 20, 30]);
    assert_eq!(v.as_ref(), &[10, 20, 30]);
    assert_eq!(v.len(), 3);
}

#[test]
fn try_owned_returns_the_same_elements_without_cloning() {
    let arr = vec![1, 2, 3, 4, 5];
    let v = CowVec::owned(arr.clone());
    assert_eq!(v.try_owned(), Some(vec![1, 2, 3, 4, 5]));

    let clones = Rc::new(Cell::new(0));
    let drops = Rc::new(Cell::new(0));
    let c = CowVec::owned(tallies(5, &clones, &drops));
    let back = c.try_owned().expect("an owned container gives its buffer");
    assert_eq!(ids(&back), vec![0, 1, 2, 3, 4]);
    assert_eq!(clones.get(), 0);
    assert_eq!(drops.get(), 0);
}

#[test]
fn try_owned_is_absent_on_borrowed() {
    let arr = [1, 2, 3];
    assert_eq!(CowVec::borrowed(&arr[..]).try_owned(), None);

    let clones = Rc::new(Cell::new(0));
    let drops = Rc::new(Cell::new(0));
    let source = tallies(3, &clones, &drops);
    assert!(CowVec::borrowed(&source[..]).try_owned().is_none());
    assert_eq!(clones.get(), 0);
    assert_eq!(drops.get(), 0);
    assert_eq!(ids(&source), vec![0, 1, 2]);
}

#[test]
fn try_owned_is_present_on_an_empty_owned_buffer() {
    let c: CowVec<u8> = CowVec::owned(Vec::new());
    assert_eq!(c.try_owned(), Some(Vec::new()));
    let c: CowVec<u8> = CowVec::owned(Vec::with_capacity(8));
    assert_eq!(c.try_owned(), Some(Vec::new()));
}

#[test]
fn try_owned_is_absent_on_an_empty_borrowed_slice() {
    let empty: &[u8] = &[];
    assert_eq!(CowVec::borrowed(empty).try_owned(), None);
}

#[test]
fn into_owned_keeps_the_buffer_of_an_owned_container() {
    let clones = Rc::new(Cell::new(0));
    let drops = Rc::new(Cell::new(0));
    let buffer = tallies(4, &clones, &drops);
    let address = buffer.as_ptr();
    let capacity = buffer.capacity();
    let back = CowVec::owned(buffer).into_owned();
    assert_eq!(ids(&back), vec![0, 1, 2, 3]);
    assert_eq!(back.as_ptr(), address);
    assert_eq!(back.capacity(), capacity);
    assert_eq!(clones.get(), 0);
    assert_eq!(drops.get(), 0);
}

#[test]
fn into_owned_copies_a_borrowed_container_once() {
    let clones = Rc::new(Cell::new(0));
    let drops = Rc::new(Cell::new(0));
    let source = tallies(4, &clones, &drops);
    let copy = CowVec::borrowed(&source[..]).into_owned();
    assert_eq!(ids(&copy), vec![0, 1, 2, 3]);
    assert_eq!(clones.get(), 4);
    assert_eq!(drops.get(), 0);
    assert_ne!(copy.as_ptr(), source.as_ptr());
    assert_eq!(ids(&source), vec![0, 1, 2, 3]);
}

#[test]
fn into_owned_of_an_empty_borrowed_slice_is_empty() {
    let empty: &[String] = &[];
    assert_eq!(CowVec::borrowed(empty).into_owned(), Vec::<String>::new());
}

#[test]
fn dropping_a_borrowed_container_leaves_the_source_alone() {
    let clones = Rc::new(Cell::new(0));
    let drops = Rc::new(Cell::new(0));
    let source = tallies(3, &clones, &drops);
    {
        let c = CowVec::borrowed(&source[..]);
        assert_eq!(c.len(), 3);
    }
    assert_eq!(drops.get(), 0);
    assert_eq!(ids(&source), vec![0, 1, 2]);
    drop(source);
    assert_eq!(drops.get(), 3);
}

#[test]
fn dropping_an_owned_container_releases_each_element_once() {
    let clones = Rc::new(Cell::new(0));
    let drops = Rc::new(Cell::new(0));
    {
        let c = CowVec::owned(tallies(6, &clones, &drops));
        assert_eq!(c.len(), 6);
        assert_eq!(drops.get(), 0);
    }
    assert_eq!(drops.get(), 6);
    assert_eq!(clones.get(), 0);
}

#[test]
fn an_extracted_buffer_is_released_by_its_new_owner_only() {
    let clones = Rc::new(Cell::new(0));
    let drops = Rc::new(Cell::new(0));
    let back = CowVec::owned(tallies(2, &clones, &drops)).try_owned();
    assert_eq!(drops.get(), 0);
    drop(back);
    assert_eq!(drops.get(), 2);
}

#[test]
fn clone_of_borrowed_shares_the_source() {
    let clones = Rc::new(Cell::new(0));
    let drops = Rc::new(Cell::new(0));
    let source = tallies(3, &clones, &drops);
    let a = CowVec::borrowed(&source[..]);
    let b = a.clone();
    assert_eq!(clones.get(), 0);
    assert_eq!(b.as_slice().as_ptr(), source.as_ptr());
    assert_eq!(a.as_slice().as_ptr(), source.as_ptr());
    assert!(b.try_owned().is_none());
}

#[test]
fn clone_of_owned_is_a_buffer_of_its_own() {
    let clones = Rc::new(Cell::new(0));
    let drops = Rc::new(Cell::new(0));
    let a = CowVec::owned(tallies(3, &clones, &drops));
    let b = a.clone();
    assert_eq!(clones.get(), 3);
    assert_ne!(a.as_slice().as_ptr(), b.as_slice().as_ptr());
    assert_eq!(ids(&a), vec![0, 1, 2]);
    let back = b.try_owned().expect("the clone of an owned container is owned");
    assert_eq!(ids(&back), vec![0, 1, 2]);
    drop(a);
    assert_eq!(drops.get(), 3);
    drop(back);
    assert_eq!(drops.get(), 6);
}

#[test]
fn equal_content_compares_equal_across_modes() {
    let source = [1u8, 2, 3, 4, 5];
    let a = CowVec::borrowed(&source[..]);
    let b = CowVec::owned(vec![1u8, 2, 3, 4, 5]);
    assert!(a == b);
    assert!(b == a);
    assert!(a == a.clone());
    assert!(b == b.clone());
}

#[test]
fn different_content_compares_unequal() {
    let a = CowVec::borrowed(&[1, 2, 3][..]);
    assert!(a != CowVec::owned(vec![1, 2, 4]));
    assert!(a != CowVec::owned(vec![1, 2]));
    assert!(a != CowVec::owned(vec![1, 2, 3, 4]));
    assert!(a != CowVec::borrowed(&[][..]));
    let empty: CowVec<i32> = CowVec::owned(Vec::new());
    assert!(empty == CowVec::borrowed(&[][..]));
}

#[test]
fn compares_with_slices_and_buffers() {
    let c = CowVec::owned(vec!['x', 'y']);
    assert!(c == &['x', 'y'][..]);
    assert!(c != &['x'][..]);
    assert!(c == vec!['x', 'y']);
    assert!(c != vec!['y', 'x']);
}

#[test]
fn from_a_slice_borrows_and_from_a_buffer_owns() {
    let source = [4, 5, 6];
    let a: CowVec<i32> = CowVec::from(&source[..]);
    assert_eq!(a.as_slice(), &[4, 5, 6]);
    assert_eq!(a.try_owned(), None);
    let b: CowVec<i32> = vec![4, 5, 6].into();
    assert_eq!(b.as_slice(), &[4, 5, 6]);
    assert_eq!(b.try_owned(), Some(vec![4, 5, 6]));
}

#[test]
fn duplicate_clones_each_element_in_order() {
    let clones = Rc::new(Cell::new(0));
    let drops = Rc::new(Cell::new(0));
    let source = tallies(5, &clones, &drops);
    let copy = duplicate(&source);
    assert_eq!(ids(&copy), vec![0, 1, 2, 3, 4]);
    assert_eq!(clones.get(), 5);
    assert_eq!(duplicate::<u8>(&[]), Vec::<u8>::new());
}

#[test]
fn slices_equal_goes_by_length_and_elements() {
    assert!(slices_equal::<u8>(&[], &[]));
    assert!(slices_equal(&[1, 2, 3], &[1, 2, 3]));
    assert!(!slices_equal(&[1, 2, 3], &[1, 2]));
    assert!(!slices_equal(&[1, 2], &[1, 2, 3]));
    assert!(!slices_equal(&[1, 2, 3], &[1, 9, 3]));
    assert!(!slices_equal(&[1, 2, 3], &[1, 2, 9]));
    assert!(slices_equal(&["a", "b"], &["a", "b"]));
}
