//! Content hashing and the chain-bound identity digest.
//!
//! The content hash is SHA-1; the identity digest is the Keccak-256 digest of
//! a public key concatenated with the 20-byte network address of the
//! configured chain. Both hash functions are supplied by outside crates and
//! are named, not restated, in specifications.

use crate::types::PublicKey;
use ethsign_crypto::Keccak256;
use vstd::prelude::*;
use vstd::slice::slice_to_vec;

verus! {

/// The 20-byte SHA-1 digest of a byte sequence, named but not defined: it is
/// computed by an outside crate.
pub uninterp spec fn sha1_of(data: Seq<u8>) -> Seq<u8>;

/// The 32-byte Keccak-256 digest of a byte sequence, named but not defined:
/// it is computed by an outside crate.
pub uninterp spec fn keccak256_of(data: Seq<u8>) -> Seq<u8>;

/// Relies on `sha1::Sha1` (`new`, `update`, `digest`, `Digest::bytes`): the
/// 20-byte SHA-1 digest of the input, a function of the input bytes alone.
#[verifier::external_body]
pub(crate) fn sha1_digest(data: &[u8]) -> (r: Vec<u8>)
    ensures
        r@ == sha1_of(data@),
        r@.len() == 20,
{
    let mut hasher = sha1::Sha1::new();
    hasher.update(data);
    hasher.digest().bytes().to_vec()
}

/// Relies on `ethsign_crypto::Keccak256` for `[u8]`: the 32-byte Keccak-256
/// digest of the input, a function of the input bytes alone.
#[verifier::external_body]
pub(crate) fn keccak256(data: &[u8]) -> (r: [u8; 32])
    ensures
        r@ == keccak256_of(data@),
{
    data.keccak256()
}

/// The network address bound into an identity digest: 20 bytes, each equal to
/// the chain identifier, so that distinct chains yield distinct addresses.
pub open spec fn spec_contract_address(chain_id: u8) -> Seq<u8> {
    Seq::new(20, |i: int| chain_id)
}

/// The chain-bound digest of a public key: the Keccak-256 digest of the key
/// bytes followed by the chain's network address bytes.
pub open spec fn spec_identity_digest(public_key: Seq<u8>, chain_id: u8) -> Seq<u8> {
    keccak256_of(public_key + spec_contract_address(chain_id))
}

/// The 20-byte network address of the given chain.
pub fn contract_address(chain_id: u8) -> (r: Vec<u8>)
    ensures
        r@ == spec_contract_address(chain_id),
{
    let mut addr: Vec<u8> = Vec::new();
    let mut i: usize = 0;
    while i < 20
        invariant
            i <= 20,
            addr@.len() == i,
            forall|j: int| 0 <= j < i ==> addr@[j] == chain_id,
        decreases 20 - i,
    {
        addr.push(chain_id);
        i = i + 1;
    }
    proof {
        assert(addr@ =~= spec_contract_address(chain_id));
    }
    addr
}

/// Computes the chain-bound digest of a public key and a network address.
pub fn create_digest(public_key: &PublicKey, address: &[u8]) -> (r: [u8; 32])
    ensures
        r@ == keccak256_of(public_key@ + address@),
{
    let mut merged: Vec<u8> = slice_to_vec(public_key.as_slice());
    merged.extend_from_slice(address);
    proof {
        assert(merged@ =~= public_key@ + address@);
    }
    keccak256(merged.as_slice())
}

} // verus!
