use std::cell::RefCell;
use std::rc::Rc;
use tauri_egui::shared::{MaybeRc, MaybeRcCell};

#[test]
fn an_owned_value_is_read_back() {
    let value = MaybeRc::new(String::from("gl"));
    assert!(matches!(value, MaybeRc::Actual(_)));
    assert_eq!(value.as_ref(), "gl");
    assert_eq!(*value, "gl");
    let borrowed: &String = std::borrow::Borrow::borrow(&value);
    assert_eq!(borrowed, "gl");
}

#[test]
fn a_shared_value_is_read_back() {
    let shared = Rc::new(7u32);
    let value = MaybeRc::Rc(shared.clone());
    assert_eq!(*value.as_ref(), 7);
    assert_eq!(*value, 7);
    let borrowed: &u32 = std::borrow::Borrow::borrow(&value);
    assert_eq!(*borrowed, 7);
    assert_eq!(Rc::strong_count(&shared), 2);
}

#[test]
fn a_new_cell_holds_what_it_was_made_with() {
    let cell = MaybeRcCell::new(3u8);
    assert!(matches!(cell, MaybeRcCell::Actual(_)));
    assert_eq!(*cell.borrow(), 3);
    *cell.borrow_mut() = 4;
    assert_eq!(*cell.borrow(), 4);
}

#[test]
fn a_shared_cell_is_the_same_cell() {
    let shared = Rc::new(RefCell::new(1u8));
    let cell = MaybeRcCell::RcCell(shared.clone());
    *cell.borrow_mut() = 9;
    assert_eq!(*shared.borrow(), 9);
    assert!(std::ptr::eq(&*cell, &*shared));
}
