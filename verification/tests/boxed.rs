use std::cell::Cell;
use std::rc::Rc;

use mybox::boxed::raw_round_trip;
use mybox::MyBox;

/// A payload that counts how many times its destructor has run.
struct TestDrop {
    counter: Rc<Cell<u32>>,
}

impl Drop for TestDrop {
    fn drop(&mut self) {
        self.counter.set(self.counter.get() + 1);
    }
}

fn require_send<T: Send>(_data: &T) {}

fn require_sync<T: Sync>(_data: &T) {}

#[test]
fn test_drop() {
    let counter = Rc::new(Cell::new(0));
    let a = TestDrop { counter: counter.clone() };
    MyBox::new(a);
    assert_eq!(counter.get(), 1);
}

#[test]
fn test_leak() {
    let counter = Rc::new(Cell::new(0));
    let a = TestDrop { counter: counter.clone() };
    let mybox = MyBox::new(a);
    let _raw_handle = mybox.into_raw();
    drop(_raw_handle);
    assert_eq!(counter.get(), 0);
}

#[test]
fn test_from_raw() {
    let counter = Rc::new(Cell::new(0));
    let a = TestDrop { counter: counter.clone() };
    let mybox = MyBox::new(a);
    let raw_handle = mybox.into_raw();
    assert_eq!(counter.get(), 0);
    let _ = MyBox::from_raw(raw_handle);
    assert_eq!(counter.get(), 1);
}

#[test]
fn test_deref() {
    let string = String::from("123456");
    let mut string_box = MyBox::new(string);
    println!("{}", string_box.deref());
    assert_eq!(string_box.deref(), "123456");
    *string_box.deref_mut() = String::from("678910");
    println!("{}", string_box.deref());
    assert_eq!(string_box.deref(), "678910");
}

#[test]
fn test_send_sync() {
    let b = MyBox::new(0);
    require_send(&b);
    require_sync(&b);
}

#[test]
fn test_sync_send_fail() {
    // An Rc payload is neither transferable to another worker nor safe to
    // share across workers, so the box over it has neither capability:
    // handing `_b` to `require_send` or `require_sync` does not type-check.
    let _b = MyBox::new(Rc::new(0));
}

#[test]
fn test_into_inner_moves_value_out() {
    let counter = Rc::new(Cell::new(0));
    let a = TestDrop { counter: counter.clone() };
    let mybox = MyBox::new(a);
    let value = mybox.into_inner();
    assert_eq!(counter.get(), 0);
    drop(value);
    assert_eq!(counter.get(), 1);
}

#[test]
fn test_into_inner_value() {
    let b = MyBox::new(41_u64);
    assert_eq!(b.into_inner(), 41);
}

#[test]
fn test_raw_round_trip_preserves_value() {
    let b = raw_round_trip(String::from("payload"));
    assert_eq!(b.deref(), "payload");
}

#[test]
fn test_raw_round_trip_drops_once() {
    let counter = Rc::new(Cell::new(0));
    let a = TestDrop { counter: counter.clone() };
    let b = raw_round_trip(a);
    assert_eq!(counter.get(), 0);
    drop(b);
    assert_eq!(counter.get(), 1);
}

#[test]
fn test_clone_is_independent() {
    let mut original = MyBox::new(String::from("first"));
    let copy = original.clone();
    *original.deref_mut() = String::from("second");
    assert_eq!(copy.deref(), "first");
    assert_eq!(original.deref(), "second");
}
