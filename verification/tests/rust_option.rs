use cxx_option::rust_option::{OptionFfi, OptionFfiInverse, RustOption};
use std::pin::Pin;

#[test]
fn new_holds_nothing() {
    let t = RustOption::<&u8>::new();
    assert!(!t.has_value());
    assert!(t.value().is_none());
    assert_eq!(t.into_option(), None);
}

#[test]
fn new_ffi_holds_nothing() {
    let t = <Option<&u8> as OptionFfi>::new_ffi();
    assert!(!t.has_value());
    assert_eq!(<Option<&u8> as OptionFfi>::from_ffi(t), None);
}

#[test]
fn set_then_value_gives_it_back() {
    let x: u8 = 5;
    let mut t = RustOption::<&u8>::new();
    t.set(&x);
    assert!(t.has_value());
    assert_eq!(t.value(), Some(&&x));
    assert_eq!(t.into_option(), Some(&5u8));
}

#[test]
fn set_replaces_the_held_value() {
    let x: u8 = 5;
    let y: u8 = 7;
    let mut t = RustOption::<&u8>::from_option(Some(&x));
    t.set(&y);
    assert_eq!(t.value(), Some(&&7u8));
}

#[test]
fn option_into_ffi_and_back() {
    let x: u32 = 42;
    let t = Some(&x).into_ffi();
    assert!(t.has_value());
    assert_eq!(<Option<&u32> as OptionFfi>::from_ffi(t), Some(&42u32));
    let t = <Option<&u32> as OptionFfi>::into_ffi(None);
    assert!(!t.has_value());
    assert_eq!(<Option<&u32> as OptionFfi>::from_ffi(t), None);
}

#[test]
fn from_option_into_option_roundtrip() {
    let x: i64 = -3;
    let t = RustOption::from_option(Some(&x));
    assert_eq!(t.into_option(), Some(&-3i64));
    let t = RustOption::<&i64>::from_option(None);
    assert_eq!(t.into_option(), None);
}

#[test]
fn views_agree_with_the_held_option() {
    let x: u16 = 9;
    let t = RustOption::from_option(Some(&x));
    assert_eq!(t.as_option(), &Some(&9u16));
    assert_eq!(<Option<&u16> as OptionFfi>::from_ffi_ref(&t), &Some(&9u16));
}

#[test]
fn writes_through_the_mutable_view_are_kept() {
    let x: u16 = 9;
    let y: u16 = 10;
    let mut t = RustOption::from_option(Some(&x));
    *t.as_mut_option() = None;
    assert!(!t.has_value());
    *<Option<&u16> as OptionFfi>::from_ffi_mut(&mut t) = Some(&y);
    assert_eq!(t.value(), Some(&&10u16));
}

#[test]
fn boxed_value_is_mutated_in_place() {
    let mut t = RustOption::from_option(Some(Box::new(3u8)));
    *t.as_ref_mut_inner_unchecked() = Box::new(4u8);
    assert_eq!(t.into_option(), Some(Box::new(4u8)));
}

#[test]
fn mutable_reference_writes_reach_the_referent() {
    let mut v: i32 = 1;
    {
        let mut t = RustOption::<&mut i32>::new();
        t.set(&mut v);
        **t.as_ref_mut_inner_unchecked() = 9;
        assert!(t.has_value());
    }
    assert_eq!(v, 9);
}

#[test]
fn pinned_reference_is_held() {
    let mut v: u8 = 1;
    let mut t = RustOption::<Pin<&mut u8>>::new();
    assert!(!t.has_value());
    t.set(Pin::new(&mut v));
    assert!(t.has_value());
    let p = t.into_option().unwrap();
    assert_eq!(*p, 1u8);
}
