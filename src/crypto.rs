//! The two cryptographic primitives the engine takes from outside crates:
//! Keccak-256 hashing and secp256k1 public-key recovery.
use sha3::Digest;
use vstd::prelude::*;

verus! {

/// The Keccak-256 hash of a byte string.
pub uninterp spec fn keccak256(data: Seq<u8>) -> Seq<u8>;

/// The 64-byte public key (`x || y`) that secp256k1 ECDSA recovery yields for
/// a prehash, a 64-byte `r || s` and a recovery id, or none where recovery
/// fails.
pub uninterp spec fn secp256k1_recovered_key(prehash: Seq<u8>, rs: Seq<u8>, recovery_id: u8) -> Option<
    Seq<u8>,
>;

/// Relies on `sha3::Keccak256::digest`: the 32-byte Keccak-256 hash of `data`.
#[verifier::external_body]
pub(crate) fn keccak(data: &[u8]) -> (h: [u8; 32])
    ensures
        h@ == keccak256(data@),
{
    sha3::Keccak256::digest(data).into()
}

/// Relies on `k256::ecdsa::Signature::from_slice`, `RecoveryId::from_byte` and
/// `VerifyingKey::recover_from_prehash`, which reject zero or out-of-range
/// scalars, a high `s`, a recovery id above 3 and a key that does not verify;
/// on success the key's uncompressed SEC1 encoding is returned without its
/// leading tag byte.
#[verifier::external_body]
pub(crate) fn recover_public_key(prehash: &[u8; 32], rs: &[u8; 64], recovery_id: u8) -> (k: Option<
    [u8; 64],
>)
    ensures
        match k {
            Some(key) => secp256k1_recovered_key(prehash@, rs@, recovery_id) == Some(key@),
            None => secp256k1_recovered_key(prehash@, rs@, recovery_id) is None,
        },
{
    let sig = k256::ecdsa::Signature::from_slice(rs).ok()?;
    let id = k256::ecdsa::RecoveryId::from_byte(recovery_id)?;
    let key = k256::ecdsa::VerifyingKey::recover_from_prehash(prehash, &sig, id).ok()?;
    let point = key.to_encoded_point(false);
    let mut out = [0u8; 64];
    out.copy_from_slice(&point.as_bytes()[1..]);
    Some(out)
}

} // verus!
