//! Principals: the parties that act on the ledger.

use vstd::prelude::*;
use crate::bytes::same_bytes;

verus! {

/// What kind of principal an address names.
#[derive(Clone, Copy, Debug, PartialEq, Eq, Structural)]
pub enum AddressKind {
    /// An account, named by its public key.
    Account,
    /// A contract, named by its hash.
    Contract,
}

/// An opaque handle for a principal. Two handles name the same principal
/// exactly when they are equal.
#[derive(Clone, Copy, Debug, PartialEq, Eq)]
pub struct Address {
    pub kind: AddressKind,
    pub key: [u8; 32],
}

impl Address {
    /// The handle of the account with public key `key`.
    pub fn account(key: [u8; 32]) -> (a: Address)
        ensures
            a == (Address { kind: AddressKind::Account, key }),
    {
        Address { kind: AddressKind::Account, key }
    }

    /// The handle of the contract with hash `key`.
    pub fn contract(key: [u8; 32]) -> (a: Address)
        ensures
            a == (Address { kind: AddressKind::Contract, key }),
    {
        Address { kind: AddressKind::Contract, key }
    }

    /// Whether `self` and `other` name the same principal.
    pub fn same(&self, other: &Address) -> (r: bool)
        ensures
            r == (*self == *other),
    {
        let kinds = match (self.kind, other.kind) {
            (AddressKind::Account, AddressKind::Account) => true,
            (AddressKind::Contract, AddressKind::Contract) => true,
            _ => false,
        };
        kinds && same_bytes(&self.key, &other.key)
    }
}

} // verus!
