use std::any::TypeId;
use vstd::prelude::*;

verus! {

/// The identity that std mints for each concrete type.
#[verifier::external_type_specification]
#[verifier::external_body]
pub struct ExTypeId(TypeId);

/// Relies on `TypeId::of`: it returns the identity of `T`; nothing about the
/// value is promised beyond that it exists.
pub assume_specification<T: ?Sized + 'static>[ TypeId::of::<T> ]() -> (r: TypeId);

/// A type that may carry a static identity.
///
/// A type opts in by returning `Some` from `type_id` and by defining
/// `has_static_identity` as `true`; a type that has no static identity returns
/// `None` and keeps the default.
pub trait GetTypeId {
    /// Whether the type declares a static identity.
    open spec fn has_static_identity() -> bool {
        false
    }

    fn type_id() -> (r: Option<TypeId>)
        ensures
            r is Some <==> Self::has_static_identity(),
    ;
}

/// The static identity of a value, read from its static type.
pub trait GetSelfId: GetTypeId {
    fn self_id(&self) -> (r: Option<TypeId>)
        ensures
            r is Some <==> Self::has_static_identity(),
    ;
}

impl<T: GetTypeId> GetSelfId for T {
    fn self_id(&self) -> (r: Option<TypeId>) {
        T::type_id()
    }
}

impl GetTypeId for u8 {
    open spec fn has_static_identity() -> bool {
        true
    }

    fn type_id() -> (r: Option<TypeId>) {
        Some(TypeId::of::<u8>())
    }
}

impl GetTypeId for u16 {
    open spec fn has_static_identity() -> bool {
        true
    }

    fn type_id() -> (r: Option<TypeId>) {
        Some(TypeId::of::<u16>())
    }
}

impl GetTypeId for u32 {
    open spec fn has_static_identity() -> bool {
        true
    }

    fn type_id() -> (r: Option<TypeId>) {
        Some(TypeId::of::<u32>())
    }
}

impl GetTypeId for u64 {
    open spec fn has_static_identity() -> bool {
        true
    }

    fn type_id() -> (r: Option<TypeId>) {
        Some(TypeId::of::<u64>())
    }
}

impl GetTypeId for u128 {
    open spec fn has_static_identity() -> bool {
        true
    }

    fn type_id() -> (r: Option<TypeId>) {
        Some(TypeId::of::<u128>())
    }
}

impl GetTypeId for usize {
    open spec fn has_static_identity() -> bool {
        true
    }

    fn type_id() -> (r: Option<TypeId>) {
        Some(TypeId::of::<usize>())
    }
}

impl GetTypeId for i8 {
    open spec fn has_static_identity() -> bool {
        true
    }

    fn type_id() -> (r: Option<TypeId>) {
        Some(TypeId::of::<i8>())
    }
}

impl GetTypeId for i16 {
    open spec fn has_static_identity() -> bool {
        true
    }

    fn type_id() -> (r: Option<TypeId>) {
        Some(TypeId::of::<i16>())
    }
}

impl GetTypeId for i32 {
    open spec fn has_static_identity() -> bool {
        true
    }

    fn type_id() -> (r: Option<TypeId>) {
        Some(TypeId::of::<i32>())
    }
}

impl GetTypeId for i64 {
    open spec fn has_static_identity() -> bool {
        true
    }

    fn type_id() -> (r: Option<TypeId>) {
        Some(TypeId::of::<i64>())
    }
}

impl GetTypeId for i128 {
    open spec fn has_static_identity() -> bool {
        true
    }

    fn type_id() -> (r: Option<TypeId>) {
        Some(TypeId::of::<i128>())
    }
}

impl GetTypeId for isize {
    open spec fn has_static_identity() -> bool {
        true
    }

    fn type_id() -> (r: Option<TypeId>) {
        Some(TypeId::of::<isize>())
    }
}

impl GetTypeId for str {
    open spec fn has_static_identity() -> bool {
        true
    }

    fn type_id() -> (r: Option<TypeId>) {
        Some(TypeId::of::<str>())
    }
}

impl GetTypeId for String {
    open spec fn has_static_identity() -> bool {
        true
    }

    fn type_id() -> (r: Option<TypeId>) {
        Some(TypeId::of::<String>())
    }
}

impl<'a> GetTypeId for &'a str {
    open spec fn has_static_identity() -> bool {
        true
    }

    fn type_id() -> (r: Option<TypeId>) {
        Some(TypeId::of::<&'static str>())
    }
}

} // verus!
