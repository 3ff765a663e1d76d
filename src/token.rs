use crate::cast::{Instance, Telecaster};
use std::any::TypeId;
use vstd::prelude::*;

verus! {

/// Relies on `std::ptr::from_ref` and the pointer's `addr`: the address of
/// the data that `r` points at. Where an object lies depends on the run, so
/// nothing is promised of the value.
#[verifier::external_body]
pub(crate) fn address_of<T: ?Sized>(r: &T) -> usize {
    std::ptr::from_ref(r).addr()
}

/// A guard that keeps the concrete identity of a borrowed value remembered
/// at the value's address until it is released. Release it before the value
/// goes away: an entry left behind would describe whatever comes to lie at
/// that address next.
pub struct TypeToken<'a, T: ?Sized> {
    reference: &'a T,
    address: usize,
    identity: TypeId,
}

impl<'a, T: ?Sized + 'static> TypeToken<'a, T> {
    /// The guarded reference.
    pub closed spec fn reference(&self) -> &'a T {
        self.reference
    }

    /// The address at which the identity is remembered.
    pub closed spec fn address(&self) -> usize {
        self.address
    }

    /// The remembered identity: that of `T`.
    pub closed spec fn identity(&self) -> TypeId {
        self.identity
    }

    /// Remembers the identity of `T` at the address of `r` in `caster`.
    pub fn new<F>(caster: &mut Telecaster<F>, r: &'a T) -> (tok: Self)
        ensures
            tok.reference() == r,
            final(caster).remembered() == old(caster).remembered().insert(tok.address(), tok.identity()),
            final(caster).declarations() == old(caster).declarations(),
    {
        let address = address_of(r);
        let identity = TypeId::of::<T>();
        caster.instance(Instance::Remember(address, identity));
        TypeToken { reference: r, address, identity }
    }

    /// Ends the guard: the address is forgotten in `caster`.
    pub fn release<F>(self, caster: &mut Telecaster<F>)
        ensures
            final(caster).remembered() == old(caster).remembered().remove(self.address()),
            final(caster).declarations() == old(caster).declarations(),
    {
        caster.instance(Instance::Forget(self.address));
    }

    /// The guarded reference.
    pub fn as_ref(&self) -> (r: &'a T)
        ensures
            r == self.reference(),
    {
        self.reference
    }

    /// The address at which the identity is remembered.
    pub fn address_value(&self) -> (r: usize)
        ensures
            r == self.address(),
    {
        self.address
    }
}

/// A guard that owns a boxed value and keeps its concrete identity
/// remembered at the value's address until it is unwrapped.
pub struct BoxToken<T: ?Sized> {
    boxed: Box<T>,
    address: usize,
    identity: TypeId,
}

impl<T: ?Sized + 'static> BoxToken<T> {
    /// The owned box.
    pub closed spec fn boxed(&self) -> Box<T> {
        self.boxed
    }

    /// The address at which the identity is remembered.
    pub closed spec fn address(&self) -> usize {
        self.address
    }

    /// The remembered identity: that of `T`.
    pub closed spec fn identity(&self) -> TypeId {
        self.identity
    }

    /// Takes ownership of `b` and remembers the identity of `T` at the
    /// address of its contents in `caster`.
    pub fn new<F>(caster: &mut Telecaster<F>, b: Box<T>) -> (tok: Self)
        ensures
            tok.boxed() == b,
            final(caster).remembered() == old(caster).remembered().insert(tok.address(), tok.identity()),
            final(caster).declarations() == old(caster).declarations(),
    {
        let address = address_of(&*b);
        let identity = TypeId::of::<T>();
        caster.instance(Instance::Remember(address, identity));
        BoxToken { boxed: b, address, identity }
    }

    /// Ends the guard and hands the box back unchanged: the address is
    /// forgotten in `caster`.
    pub fn unwrap<F>(self, caster: &mut Telecaster<F>) -> (r: Box<T>)
        ensures
            r == self.boxed(),
            final(caster).remembered() == old(caster).remembered().remove(self.address()),
            final(caster).declarations() == old(caster).declarations(),
    {
        caster.instance(Instance::Forget(self.address));
        self.boxed
    }

    /// The owned value.
    pub fn as_ref(&self) -> (r: &T)
        ensures
            r == &*self.boxed(),
    {
        &*self.boxed
    }

    /// The address at which the identity is remembered.
    pub fn address_value(&self) -> (r: usize)
        ensures
            r == self.address(),
    {
        self.address
    }
}

} // verus!
