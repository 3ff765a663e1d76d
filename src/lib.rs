//! Cross-casting between unrelated interfaces of one underlying value.
//!
//! The library keeps two tables: a registry of declared conversions, keyed by
//! the pair (concrete type, target interface), and a table of remembered
//! identities, keyed by object address, that guards fill and empty. A cast
//! resolves the concrete identity of an object (statically when the type
//! declares one, else from the remembered table) and looks the pair up.
use vstd::prelude::*;

mod cast;
mod error;
mod token;
mod type_id;

pub use cast::{Conversion, Instance, Telecaster, TraitObject};
pub use cast::{conversion_in, identity_in, resolve_in};
pub use cast::{
    lemma_declared_pair_casts, lemma_forget_idempotent, lemma_forgotten_address_casts_nothing,
    lemma_guard_scope, lemma_remember_overwrites, lemma_unknown_identity_casts_nothing,
};
pub use error::Error;
pub use token::{BoxToken, TypeToken};
pub use type_id::{GetSelfId, GetTypeId};
