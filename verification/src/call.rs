//! What the host tells a contract about the call it hands over.

use vstd::prelude::*;

verus! {

/// What the host vouches for when it hands a call to a contract.
#[derive(Clone, Copy, Debug, PartialEq, Eq, Structural)]
pub struct Invocation {
    /// Whether the authorization provider has proven that the call is made on
    /// behalf of the principal that the call names as its caller.
    pub authorized: bool,
    /// The reading of the ledger clock, in seconds.
    pub timestamp: u64,
}

} // verus!
