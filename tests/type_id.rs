use std::any::TypeId;
use telecaster::{GetSelfId, GetTypeId};

#[test]
fn test_primitive_types() {
    assert_eq!(u8::type_id(), Some(TypeId::of::<u8>()));
    assert_eq!(u16::type_id(), Some(TypeId::of::<u16>()));
    assert_eq!(u32::type_id(), Some(TypeId::of::<u32>()));
    assert_eq!(u64::type_id(), Some(TypeId::of::<u64>()));
    assert_eq!(i8::type_id(), Some(TypeId::of::<i8>()));
    assert_eq!(i16::type_id(), Some(TypeId::of::<i16>()));
    assert_eq!(i32::type_id(), Some(TypeId::of::<i32>()));
    assert_eq!(i64::type_id(), Some(TypeId::of::<i64>()));
    assert_eq!(str::type_id(), Some(TypeId::of::<str>()));
}

#[test]
fn test_primitive_instances() {
    assert_eq!(5u8.self_id(), Some(TypeId::of::<u8>()));
    assert_eq!(5u16.self_id(), Some(TypeId::of::<u16>()));
    assert_eq!(5u32.self_id(), Some(TypeId::of::<u32>()));
    assert_eq!(5u64.self_id(), Some(TypeId::of::<u64>()));
    assert_eq!(5i8.self_id(), Some(TypeId::of::<i8>()));
    assert_eq!(5i16.self_id(), Some(TypeId::of::<i16>()));
    assert_eq!(5i32.self_id(), Some(TypeId::of::<i32>()));
    assert_eq!(5i64.self_id(), Some(TypeId::of::<i64>()));
}

#[test]
fn test_primitive_refs() {
    let five = &5u8;
    let foo = "foo";
    let bar = String::from("bar");
    let bref = &bar;
    assert_eq!(five.self_id(), Some(TypeId::of::<u8>()));
    assert_eq!(foo.self_id(), Some(TypeId::of::<&str>()));
    assert_eq!(bref.self_id(), Some(TypeId::of::<String>()));
}

#[test]
fn wide_integer_and_string_identities() {
    assert_eq!(u128::type_id(), Some(TypeId::of::<u128>()));
    assert_eq!(usize::type_id(), Some(TypeId::of::<usize>()));
    assert_eq!(i128::type_id(), Some(TypeId::of::<i128>()));
    assert_eq!(isize::type_id(), Some(TypeId::of::<isize>()));
    assert_eq!(String::type_id(), Some(TypeId::of::<String>()));
    assert_ne!(u32::type_id(), u64::type_id());
}

struct Plain;

impl GetTypeId for Plain {
    fn type_id() -> Option<TypeId> {
        None
    }
}

#[test]
fn undeclared_type_has_no_identity() {
    assert_eq!(Plain::type_id(), None);
    assert_eq!(Plain.self_id(), None);
}
