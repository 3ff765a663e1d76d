use std::any::TypeId;
use std::collections::HashMap;
use crate::token::address_of;
use crate::type_id::GetTypeId;
use vstd::prelude::*;

verus! {

broadcast use vstd::std_specs::hash::group_hash_axioms;

/// An erased interface reference: the address of the data and the address of
/// the dispatch table for one interface. Only a caller that names the
/// interface can turn it back into a typed reference.
pub struct TraitObject {
    pub data: usize,
    pub vtable: usize,
}

/// A declared conversion from the concrete type `concrete` to the interface
/// `target`, carried out by `convert`.
pub struct Conversion<F> {
    pub concrete: TypeId,
    pub target: TypeId,
    pub convert: F,
}

/// Operations on the table of remembered identities.
pub enum Instance {
    Remember(usize, TypeId),
    Forget(usize),
    Query(usize),
}

/// The conversion declared last for the pair (`concrete`, `target`), if any.
pub open spec fn conversion_in<F>(decls: Seq<Conversion<F>>, concrete: TypeId, target: TypeId) -> Option<F>
    decreases decls.len(),
{
    if decls.len() == 0 {
        None
    } else if decls.last().concrete == concrete && decls.last().target == target {
        Some(decls.last().convert)
    } else {
        conversion_in(decls.drop_last(), concrete, target)
    }
}

/// The concrete identity of the object at `address`: its static identity when
/// there is one, else the identity remembered for the address.
pub open spec fn identity_in(static_id: Option<TypeId>, table: Map<usize, TypeId>, address: usize) -> Option<TypeId> {
    match static_id {
        Some(id) => Some(id),
        None => if table.contains_key(address) {
            Some(table[address])
        } else {
            None
        },
    }
}

/// The conversion that a cast of the object at `address` to `target` uses.
pub open spec fn resolve_in<F>(
    decls: Seq<Conversion<F>>,
    table: Map<usize, TypeId>,
    static_id: Option<TypeId>,
    address: usize,
    target: TypeId,
) -> Option<F> {
    match identity_in(static_id, table, address) {
        Some(concrete) => conversion_in(decls, concrete, target),
        None => None,
    }
}

/// Relies on `TypeId`'s `==`: two identities are equal exactly when they
/// stand for the same type.
#[verifier::external_body]
fn same_type(a: &TypeId, b: &TypeId) -> (r: bool)
    ensures
        r == (*a == *b),
{
    *a == *b
}

/// The conversion registry together with the table of remembered identities.
pub struct Telecaster<F> {
    casts: Vec<Conversion<F>>,
    instances: HashMap<usize, TypeId>,
}

impl<F> Telecaster<F> {
    /// The declarations, in the order they were made.
    pub closed spec fn declarations(&self) -> Seq<Conversion<F>> {
        self.casts@
    }

    /// The remembered identities, by address.
    pub closed spec fn remembered(&self) -> Map<usize, TypeId> {
        self.instances@
    }

    /// The conversion declared for the pair, if any.
    pub open spec fn conversion(&self, concrete: TypeId, target: TypeId) -> Option<F> {
        conversion_in(self.declarations(), concrete, target)
    }

    /// The conversion a cast of the object at `address` to `target` uses.
    pub open spec fn resolved(&self, static_id: Option<TypeId>, address: usize, target: TypeId) -> Option<F> {
        resolve_in(self.declarations(), self.remembered(), static_id, address, target)
    }

    /// A registry with no declaration and no remembered identity.
    pub fn new() -> (r: Self)
        ensures
            r.declarations() == Seq::<Conversion<F>>::empty(),
            r.remembered() == Map::<usize, TypeId>::empty(),
    {
        Telecaster { casts: Vec::new(), instances: HashMap::new() }
    }

    /// Declares that values of type `concrete` convert to `target` by `convert`.
    /// A later declaration for the same pair takes the place of an earlier one.
    pub fn declare(&mut self, concrete: TypeId, target: TypeId, convert: F)
        ensures
            final(self).declarations() == old(self).declarations().push(
                Conversion { concrete, target, convert },
            ),
            final(self).remembered() == old(self).remembered(),
    {
        self.casts.push(Conversion { concrete, target, convert });
    }

    /// The conversion declared for (`concrete`, `target`), the latest one if
    /// the pair was declared more than once.
    pub fn lookup(&self, concrete: &TypeId, target: &TypeId) -> (r: Option<&F>)
        ensures
            match r {
                Some(f) => self.conversion(*concrete, *target) == Some(*f),
                None => self.conversion(*concrete, *target) is None,
            },
    {
        let ghost decls = self.casts@;
        let mut i: usize = self.casts.len();
        assert(decls.take(i as int) =~= decls);
        while i > 0
            invariant
                i <= decls.len(),
                decls == self.casts@,
                conversion_in(decls.take(i as int), *concrete, *target)
                    == conversion_in(decls, *concrete, *target),
            decreases i,
        {
            let entry = &self.casts[i - 1];
            assert(decls.take(i as int).drop_last() =~= decls.take(i - 1));
            assert(decls.take(i as int).last() == decls[i - 1]);
            if same_type(&entry.concrete, concrete) && same_type(&entry.target, target) {
                return Some(&entry.convert);
            }
            i = i - 1;
        }
        None
    }

    /// Remembers, forgets or queries the identity of the object at an address.
    /// Remembering overwrites what was remembered before at that address;
    /// forgetting an address that holds nothing changes nothing. Only a query
    /// returns `Some`.
    pub fn instance(&mut self, op: Instance) -> (r: Option<TypeId>)
        ensures
            final(self).declarations() == old(self).declarations(),
            match op {
                Instance::Remember(address, id) => {
                    &&& final(self).remembered() == old(self).remembered().insert(address, id)
                    &&& r is None
                },
                Instance::Forget(address) => {
                    &&& final(self).remembered() == old(self).remembered().remove(address)
                    &&& r is None
                },
                Instance::Query(address) => {
                    &&& final(self).remembered() == old(self).remembered()
                    &&& r == identity_in(None, old(self).remembered(), address)
                },
            },
    {
        match op {
            Instance::Remember(address, id) => {
                self.instances.insert(address, id);
                None
            },
            Instance::Forget(address) => {
                self.instances.remove(&address);
                None
            },
            Instance::Query(address) => {
                match self.instances.get(&address) {
                    Some(id) => Some(*id),
                    None => None,
                }
            },
        }
    }

    /// Finds the conversion for a cast to `target` of the object at `address`.
    /// The concrete identity is `static_id` when the object's type declares
    /// one, else the identity remembered for `address`. With no identity, or
    /// no conversion declared for the pair, there is none.
    pub fn resolve(&self, static_id: Option<TypeId>, address: usize, target: &TypeId) -> (r: Option<&F>)
        ensures
            match r {
                Some(f) => self.resolved(static_id, address, *target) == Some(*f),
                None => self.resolved(static_id, address, *target) is None,
            },
    {
        let concrete = match static_id {
            Some(id) => id,
            None => match self.instances.get(&address) {
                Some(id) => *id,
                None => return None,
            },
        };
        self.lookup(&concrete, target)
    }

    /// Finds the conversion that casts `object` to the interface `U`: the
    /// concrete identity is the static one of `T` when `T` declares one,
    /// else the one remembered at the address of `object`.
    pub fn cast<T: ?Sized + GetTypeId, U: ?Sized + 'static>(&self, object: &T) -> (r: Option<&F>)
        ensures
            exists|static_id: Option<TypeId>, address: usize, target: TypeId|
                (static_id is Some <==> T::has_static_identity()) && match r {
                    Some(f) => self.resolved(static_id, address, target) == Some(*f),
                    None => self.resolved(static_id, address, target) is None,
                },
    {
        let address = address_of(object);
        let static_id = T::type_id();
        let target = TypeId::of::<U>();
        self.resolve(static_id, address, &target)
    }
}

/// Once (`concrete`, `target`) is declared with `convert`, and only other pairs
/// are declared after it, every object whose identity resolves to `concrete`
/// casts to `target` through `convert`.
pub proof fn lemma_declared_pair_casts<F>(
    decls: Seq<Conversion<F>>,
    later: Seq<Conversion<F>>,
    table: Map<usize, TypeId>,
    static_id: Option<TypeId>,
    address: usize,
    concrete: TypeId,
    target: TypeId,
    convert: F,
)
    requires
        identity_in(static_id, table, address) == Some(concrete),
        forall|k: int|
            0 <= k < later.len() ==> !(#[trigger] later[k].concrete == concrete && later[k].target
                == target),
    ensures
        resolve_in(
            decls.push(Conversion { concrete, target, convert }) + later,
            table,
            static_id,
            address,
            target,
        ) == Some(convert),
    decreases later.len(),
{
    let all = decls.push(Conversion { concrete, target, convert }) + later;
    if later.len() == 0 {
        assert(all =~= decls.push(Conversion { concrete, target, convert }));
    } else {
        let shorter = later.drop_last();
        assert(all.drop_last() =~= decls.push(Conversion { concrete, target, convert }) + shorter);
        assert(all.last() == later[later.len() - 1]);
        lemma_declared_pair_casts(decls, shorter, table, static_id, address, concrete, target, convert);
    }
}

/// An object whose type has no static identity, and whose address holds no
/// remembered identity, casts to nothing.
pub proof fn lemma_unknown_identity_casts_nothing<F>(
    decls: Seq<Conversion<F>>,
    table: Map<usize, TypeId>,
    address: usize,
    target: TypeId,
)
    requires
        !table.contains_key(address),
    ensures
        resolve_in(decls, table, None, address, target) is None,
{
}

/// While an identity is remembered at an address, an object there without a
/// static identity casts as a value of that identity; once the address is
/// forgotten it casts to nothing.
pub proof fn lemma_guard_scope<F>(
    decls: Seq<Conversion<F>>,
    table: Map<usize, TypeId>,
    address: usize,
    concrete: TypeId,
    target: TypeId,
)
    ensures
        resolve_in(decls, table.insert(address, concrete), None, address, target)
            == conversion_in(decls, concrete, target),
        resolve_in(decls, table.insert(address, concrete).remove(address), None, address, target) is None,
{
}

/// After an address is forgotten, a cast of an object there without a static
/// identity finds nothing, whatever was remembered before.
pub proof fn lemma_forgotten_address_casts_nothing<F>(
    decls: Seq<Conversion<F>>,
    table: Map<usize, TypeId>,
    address: usize,
    target: TypeId,
)
    ensures
        resolve_in(decls, table.remove(address), None, address, target) is None,
{
}

/// Remembering a second identity at an address replaces the first: a cast
/// then goes by the newest identity alone.
pub proof fn lemma_remember_overwrites<F>(
    decls: Seq<Conversion<F>>,
    table: Map<usize, TypeId>,
    address: usize,
    first: TypeId,
    second: TypeId,
    target: TypeId,
)
    ensures
        table.insert(address, first).insert(address, second) == table.insert(address, second),
        resolve_in(decls, table.insert(address, first).insert(address, second), None, address, target)
            == conversion_in(decls, second, target),
{
    assert(table.insert(address, first).insert(address, second) =~= table.insert(address, second));
}

/// Forgetting an address twice is the same as forgetting it once, and
/// forgetting an address that holds nothing changes nothing.
pub proof fn lemma_forget_idempotent(table: Map<usize, TypeId>, address: usize)
    ensures
        table.remove(address).remove(address) == table.remove(address),
        !table.contains_key(address) ==> table.remove(address) == table,
{
    assert(table.remove(address).remove(address) =~= table.remove(address));
    if !table.contains_key(address) {
        assert(table.remove(address) =~= table);
    }
}

} // verus!
