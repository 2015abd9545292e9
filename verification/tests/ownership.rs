use std::cell::Cell;
use std::rc::Rc;

use xjbutil::korobka::Korobka;
use xjbutil::mem_intern::Handle;
use xjbutil::mem_intern::leak_as_nonnull;
use xjbutil::mem_intern::move_to_heap;
use xjbutil::mem_intern::reclaim_as_boxed;
use xjbutil::std_ext::BoxedExt;
use xjbutil::std_ext::VecExt;

/// A payload that counts how many times its destructor has run.
struct DropCounter {
    count: Rc<Cell<u32>>,
}

impl Drop for DropCounter {
    fn drop(&mut self) {
        self.count.set(self.count.get() + 1);
    }
}

#[test]
fn test_mem_intern() {
    let origin: String = "114514".into();
    let ptr: Handle<String> = move_to_heap(origin);
    let addr = ptr.addr();
    let boxed: Box<String> = reclaim_as_boxed(ptr);
    assert_eq!(*boxed, "114514");
    let ptr2 = leak_as_nonnull(boxed);

    assert_eq!(addr, ptr2.addr());

    let boxed: Box<String> = reclaim_as_boxed(ptr2);
    drop(boxed);
}

#[test]
fn test_escape_reclaim_destructor_once() {
    let count = Rc::new(Cell::new(0));
    let h = move_to_heap(DropCounter { count: count.clone() });
    let boxed = reclaim_as_boxed(h);
    assert_eq!(count.get(), 0);
    drop(boxed);
    assert_eq!(count.get(), 1);
}

#[test]
fn test_dropped_handle_leaks() {
    let count = Rc::new(Cell::new(0));
    let h = move_to_heap(DropCounter { count: count.clone() });
    drop(h);
    assert_eq!(count.get(), 0);
}

#[test]
fn test_handle_identity_by_address() {
    let h1 = move_to_heap(114u64);
    let h2 = move_to_heap(114u64);
    assert_eq!(h1.addr(), h1.addr());
    assert_eq!(h2.addr(), h2.addr());
    assert_ne!(h1.addr(), h2.addr());
    drop(reclaim_as_boxed(h1));
    drop(reclaim_as_boxed(h2));
}

#[test]
fn test_korobka() {
    let korobka: Korobka<String> = Korobka::new("114514".into());
    assert_eq!(korobka.as_ref(), "114514");

    let ptr: usize = korobka.as_nonnull();
    let v: Vec<Korobka<String>> = vec![korobka];

    println!("v[0].as_ref() = {}", v[0].as_ref());
    assert_eq!(ptr, v[0].as_ptr());
}

#[test]
fn test_korobka_scenario() {
    let korobka: Korobka<String> = Korobka::new("114514".into());
    assert_eq!(korobka.as_ref(), "114514");

    let v: Vec<Korobka<String>> = vec![korobka];
    assert_eq!(v[0].as_ref(), "114514");

    let count = Rc::new(Cell::new(0));
    let container = vec![Korobka::new(DropCounter { count: count.clone() })];
    assert_eq!(count.get(), 0);
    drop(container);
    assert_eq!(count.get(), 1);
}

#[test]
fn test_korobka_destructor_once_across_roundtrip() {
    let count = Rc::new(Cell::new(0));
    let k = Korobka::new(DropCounter { count: count.clone() });
    let boxed = k.into_boxed();
    assert_eq!(count.get(), 0);
    let k = Korobka::from(boxed);
    assert_eq!(count.get(), 0);
    drop(k);
    assert_eq!(count.get(), 1);
}

#[test]
fn test_korobka_handle_roundtrip() {
    let k = Korobka::new(514u32);
    let before = k.as_ptr();
    let h = k.into_handle();
    assert_eq!(before, h.addr());
    let k = Korobka::<u32>::from_handle(h);
    assert_eq!(before, k.as_ptr());
    assert_eq!(*k.as_ref(), 514);
}

#[test]
fn test_korobka_as_mut() {
    let mut k = Korobka::new(114u64);
    *k.as_mut() = 1919;
    assert_eq!(*k.as_ref(), 1919);
}

#[test]
fn test_korobka_equality_by_referent() {
    let a = Korobka::new(String::from("114514"));
    let b = Korobka::new(String::from("114514"));
    let c = Korobka::new(String::from("1919810"));
    assert!(a == b);
    assert!(a != c);
    assert_ne!(a.as_ptr(), b.as_ptr());
}

#[test]
fn test_boxed_ext_roundtrip() {
    let boxed: Box<u64> = Box::new(810);
    let h = boxed.leak_as_nonnull();
    let back: Box<u64> = <Box<u64> as BoxedExt<u64>>::reclaim(h);
    assert_eq!(*back, 810);
}

#[test]
fn test_vec_into_slice_ptr() {
    let v: Vec<i32> = vec![114, 514, 1919, 810];
    let h = v.into_slice_ptr();
    let slice_box = reclaim_as_boxed(h);
    assert_eq!(&**slice_box, &[114, 514, 1919, 810]);
}
