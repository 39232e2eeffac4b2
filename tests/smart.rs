use concurrent_cell::smart::SimpleStruct;
use std::cell::RefCell;
use std::rc::Rc;
use std::sync::{Arc, Mutex};

#[derive(Debug)]
struct SimpleStruct2 {
    value: i32,
    mutable_value: RefCell<i32>,
}

#[test]
fn use_box() {
    let boxed_struct = Box::new(SimpleStruct::new(42));
    let ref_to_struct = &*boxed_struct;
    assert_eq!(ref_to_struct.value, 42);
    assert_eq!(format!("{:?}", boxed_struct), "SimpleStruct { value: 42 }");
}

#[test]
fn use_rc() {
    let shared_struct = Rc::new(SimpleStruct2 {
        value: 100,
        mutable_value: RefCell::new(200),
    });
    let another_ref = Rc::clone(&shared_struct);
    assert_eq!(Rc::strong_count(&shared_struct), 2);
    assert_eq!(another_ref.value, 100);
    {
        let mut mutable_borrow = shared_struct.mutable_value.borrow_mut();
        *mutable_borrow += 50;
        assert_eq!(*mutable_borrow, 250);
    }
    assert_eq!(*another_ref.mutable_value.borrow(), 250);
    drop(another_ref);
    assert_eq!(Rc::strong_count(&shared_struct), 1);
}

#[test]
fn use_arc() {
    let shared_arc = Arc::new(SimpleStruct::new(200));
    {
        let another_ref = Arc::clone(&shared_arc);
        assert_eq!(Arc::strong_count(&shared_arc), 2);
        assert_eq!(another_ref.value, 200);
    }
    assert_eq!(Arc::strong_count(&shared_arc), 1);
}

#[test]
fn use_ref_cell() {
    let ref_cell_struct = RefCell::new(SimpleStruct::new(300));
    {
        let mut borrowed = ref_cell_struct.borrow_mut();
        borrowed.value *= 2;
    }
    assert_eq!(ref_cell_struct.borrow().value, 600);
}

#[test]
fn use_mutex() {
    let mutex_struct = Mutex::new(SimpleStruct::new(400));
    {
        let mut locked_struct = mutex_struct.lock().unwrap();
        locked_struct.value += 100;
    }
    assert_eq!(mutex_struct.lock().unwrap().value, 500);
}
