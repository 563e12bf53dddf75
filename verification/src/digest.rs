//! Identifiers derived by hashing.

use vstd::prelude::*;
use vstd::bytes::{lemma_auto_spec_u64_to_from_le_bytes, spec_u64_to_le_bytes, u64_to_le_bytes};
use crate::identity::{Address, AddressKind};

verus! {

/// The SHA-256 digest of `data`.
pub uninterp spec fn sha256_digest(data: Seq<u8>) -> Seq<u8>;

/// The longest input that is handed to the hash.
pub const MAX_HASHED: usize = 64;

/// Trusted, not proved: calls `soroban_sdk::crypto::Crypto::sha256` on a
/// host made for this one call, and claims that what comes back is the
/// SHA-256 digest of `data`, 32 bytes that depend on `data` alone.
///
/// The host meters its work and gives up when its budget is spent. A fresh
/// host has the default budget, and hashing at most `MAX_HASHED` bytes uses
/// a tiny part of it, so within that bound the call returns.
#[verifier::external_body]
fn sha256(data: &Vec<u8>) -> (digest: [u8; 32])
    requires
        data@.len() <= MAX_HASHED,
    ensures
        digest@ == sha256_digest(data@),
{
    let env = soroban_sdk::Env::default();
    let bytes = soroban_sdk::Bytes::from_slice(&env, data.as_slice());
    env.crypto().sha256(&bytes).to_array()
}

/// The byte that stands for a kind of principal.
pub open spec fn kind_tag(kind: AddressKind) -> u8 {
    match kind {
        AddressKind::Account => 0,
        AddressKind::Contract => 1,
    }
}

/// What is hashed to name something that belongs to `who` and came to be at
/// `timestamp`: the tag of the principal's kind, its key, the bytes of
/// `label` and the timestamp as eight bytes, lowest first.
pub open spec fn stamp(who: Address, label: Seq<u8>, timestamp: u64) -> Seq<u8> {
    seq![kind_tag(who.kind)] + who.key@ + label + spec_u64_to_le_bytes(timestamp)
}

/// The identifier of something that belongs to `who` and came to be at
/// `timestamp`: the digest of its stamp.
pub open spec fn stamped_id(who: Address, label: Seq<u8>, timestamp: u64) -> Seq<u8> {
    sha256_digest(stamp(who, label, timestamp))
}

/// The bytes of `stamp`, with a label of at most one byte.
pub fn stamp_bytes(who: &Address, label: Option<u8>, timestamp: u64) -> (bytes: Vec<u8>)
    ensures
        bytes@ == stamp(
            *who,
            match label {
                Some(b) => seq![b],
                None => Seq::<u8>::empty(),
            },
            timestamp,
        ),
        bytes@.len() <= 42,
{
    let mut bytes: Vec<u8> = Vec::new();
    bytes.push(
        match who.kind {
            AddressKind::Account => 0,
            AddressKind::Contract => 1,
        },
    );
    let mut i: usize = 0;
    while i < 32
        invariant
            i <= 32,
            bytes@ == seq![kind_tag(who.kind)] + who.key@.take(i as int),
        decreases 32 - i,
    {
        bytes.push(who.key[i]);
        assert(who.key@.take(i + 1) =~= who.key@.take(i as int).push(who.key@[i as int]));
        i += 1;
    }
    assert(who.key@.take(32) =~= who.key@);
    match label {
        Some(b) => {
            bytes.push(b);
        },
        None => {},
    }
    let clock = u64_to_le_bytes(timestamp);
    proof {
        lemma_auto_spec_u64_to_from_le_bytes();
    }
    let ghost head = bytes@;
    let mut j: usize = 0;
    while j < 8
        invariant
            j <= 8,
            clock@.len() == 8,
            bytes@ == head + clock@.take(j as int),
        decreases 8 - j,
    {
        bytes.push(clock[j]);
        assert(clock@.take(j + 1) =~= clock@.take(j as int).push(clock@[j as int]));
        j += 1;
    }
    assert(clock@.take(8) =~= clock@);
    assert(bytes@ =~= stamp(
        *who,
        match label {
            Some(b) => seq![b],
            None => Seq::<u8>::empty(),
        },
        timestamp,
    ));
    bytes
}

/// The identifier of something that belongs to `who` and came to be at
/// `timestamp`.
pub fn new_id(who: &Address, label: Option<u8>, timestamp: u64) -> (id: [u8; 32])
    ensures
        id@ == stamped_id(
            *who,
            match label {
                Some(b) => seq![b],
                None => Seq::<u8>::empty(),
            },
            timestamp,
        ),
{
    let bytes = stamp_bytes(who, label, timestamp);
    sha256(&bytes)
}

} // verus!
