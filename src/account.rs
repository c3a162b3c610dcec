//! Account identities and the public keys they are derived from.

use vstd::prelude::*;

use sp_core::Hasher;


verus! {

/// The 256-bit BLAKE2b digest of a byte string.
pub uninterp spec fn blake2_256_of(data: Seq<u8>) -> Seq<u8>;

/// Relies on sp-core's `Blake2Hasher::hash`: the 256-bit BLAKE2b digest of
/// the input, which depends on the input alone.
#[verifier::external_body]
fn blake2_256(data: &[u8]) -> (r: [u8; 32])
    ensures
        r@ == blake2_256_of(data@),
{
    sp_core::Blake2Hasher::hash(data).0
}

/// A public key of one of the three signature schemes.
#[derive(Clone, Copy, Debug, PartialEq, Eq)]
pub enum PublicKey {
    Ed25519([u8; 32]),
    Sr25519([u8; 32]),
    /// A compressed secp256k1 point.
    Ecdsa([u8; 33]),
}

/// A 32-byte account identity.
#[derive(Clone, Copy, Debug, PartialEq, Eq)]
pub struct AccountId {
    pub bytes: [u8; 32],
}

/// The identity of the account that a key controls: the key itself for the
/// 32-byte schemes, the BLAKE2b-256 digest of the key for ECDSA.
pub open spec fn account_of(key: PublicKey) -> Seq<u8> {
    match key {
        PublicKey::Ed25519(k) => k@,
        PublicKey::Sr25519(k) => k@,
        PublicKey::Ecdsa(k) => blake2_256_of(k@),
    }
}

/// Derives the account identity of a public key.
pub fn public_into_account(key: &PublicKey) -> (r: AccountId)
    ensures
        r@ == account_of(*key),
{
    match key {
        PublicKey::Ed25519(k) => AccountId { bytes: *k },
        PublicKey::Sr25519(k) => AccountId { bytes: *k },
        PublicKey::Ecdsa(k) => AccountId { bytes: blake2_256(k.as_slice()) },
    }
}

impl View for AccountId {
    type V = Seq<u8>;

    open spec fn view(&self) -> Seq<u8> {
        self.bytes@
    }
}

} // verus!
