//! The processing roles a partially signed transaction passes through,
//! in their fixed BIP-174 order.

use vstd::prelude::*;

verus! {

/// The BIP-174 processing roles, in order: creator, updater, signer,
/// combiner, finalizer, extractor.
#[derive(Clone, Copy, PartialEq, Eq, PartialOrd, Ord, Hash, Structural, Debug)]
pub enum Role {
    /// Builds the empty transaction skeleton.
    Creator,
    /// Adds the data needed for signing.
    Updater,
    /// Contributes signatures.
    Signer,
    /// Merges several partially signed copies.
    Combiner,
    /// Turns complete signature sets into final scripts.
    Finalizer,
    /// Extracts the fully signed network transaction.
    Extractor,
}

impl Default for Role {
    /// The first role of the workflow.
    fn default() -> (r: Self)
        ensures
            r == Role::Creator,
    {
        Role::Creator
    }
}

impl Role {
    /// The role that starts the workflow.
    pub fn init() -> (r: Role)
        ensures
            r == Role::Creator,
    {
        Role::default()
    }

    /// The role after this one, or `None` after the extractor.
    pub fn next(&self) -> (r: Option<Role>)
        ensures
            (match *self {
                Role::Creator => r == Some(Role::Updater),
                Role::Updater => r == Some(Role::Signer),
                Role::Signer => r == Some(Role::Combiner),
                Role::Combiner => r == Some(Role::Finalizer),
                Role::Finalizer => r == Some(Role::Extractor),
                Role::Extractor => r is None,
            }),
    {
        match self {
            Role::Creator => Some(Role::Updater),
            Role::Updater => Some(Role::Signer),
            Role::Signer => Some(Role::Combiner),
            Role::Combiner => Some(Role::Finalizer),
            Role::Finalizer => Some(Role::Extractor),
            Role::Extractor => None,
        }
    }
}

} // verus!
