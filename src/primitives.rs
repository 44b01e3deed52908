//! The cryptographic primitives this library composes, each reached through
//! one trusted item whose result is named by an uninterpreted function.

use ed25519_dalek::{Signer, Verifier};
use rand::RngCore;
use vstd::prelude::*;

verus! {

/// The 32-byte digest of BLAKE3 in keyed mode, for a 32-byte key and a message.
pub uninterp spec fn blake3_keyed_hash_of(key: Seq<u8>, message: Seq<u8>) -> [u8; 32];

/// The 64-byte Ed25519 signature (RFC 8032) of a message under a 32-byte secret seed.
pub uninterp spec fn ed25519_signature_of(seed: Seq<u8>, message: Seq<u8>) -> [u8; 64];

/// The 32-byte compressed public key derived from a 32-byte secret seed.
pub uninterp spec fn ed25519_public_key_of(seed: Seq<u8>) -> [u8; 32];

/// Whether 32 bytes decompress to a point of the curve, and so encode a public key.
pub uninterp spec fn ed25519_public_key_valid(key: Seq<u8>) -> bool;

/// Whether the Ed25519 verification equation accepts a 64-byte signature of a
/// message under a valid public key.
pub uninterp spec fn ed25519_accepts(key: Seq<u8>, message: Seq<u8>, signature: Seq<u8>) -> bool;

/// Relies on `blake3::keyed_hash`: the keyed digest depends on the key and the
/// message alone.
#[verifier::external_body]
pub(crate) fn blake3_keyed_hash(key: &[u8; 32], message: &[u8]) -> (r: [u8; 32])
    ensures
        r == blake3_keyed_hash_of(key@, message@),
{
    *blake3::keyed_hash(key, message).as_bytes()
}

/// Relies on `ed25519_dalek::SigningKey::sign` (through `Signer`): Ed25519
/// signing is deterministic, so the signature depends on the seed and the
/// message alone.
#[verifier::external_body]
pub(crate) fn ed25519_sign(seed: &[u8; 32], message: &[u8]) -> (r: [u8; 64])
    ensures
        r == ed25519_signature_of(seed@, message@),
{
    ed25519_dalek::SigningKey::from_bytes(seed).sign(message).to_bytes()
}

/// Relies on `From<&SigningKey> for VerifyingKey`: the public key is a function
/// of the seed; being a compressed point it always decompresses, and it accepts
/// every signature that the same seed makes.
#[verifier::external_body]
pub(crate) fn ed25519_public_key(seed: &[u8; 32]) -> (r: [u8; 32])
    ensures
        r == ed25519_public_key_of(seed@),
        ed25519_public_key_valid(r@),
        forall|m: Seq<u8>| #[trigger] ed25519_accepts(r@, m, ed25519_signature_of(seed@, m)@),
{
    let signing_key = ed25519_dalek::SigningKey::from_bytes(seed);
    ed25519_dalek::VerifyingKey::from(&signing_key).to_bytes()
}

/// Relies on `ed25519_dalek::VerifyingKey::from_bytes`: it succeeds exactly when
/// the bytes decompress to a curve point.
#[verifier::external_body]
pub(crate) fn ed25519_check_public_key(key: &[u8; 32]) -> (r: bool)
    ensures
        r == ed25519_public_key_valid(key@),
{
    ed25519_dalek::VerifyingKey::from_bytes(key).is_ok()
}

/// Relies on `ed25519_dalek::VerifyingKey::verify` (through `Verifier`), with the
/// key parsed by `VerifyingKey::from_bytes` and the signature taken by the
/// infallible `Signature::from_bytes`: a failed check is `false`.
#[verifier::external_body]
pub(crate) fn ed25519_verify(key: &[u8; 32], message: &[u8], signature: &[u8; 64]) -> (r: bool)
    requires
        ed25519_public_key_valid(key@),
    ensures
        r == ed25519_accepts(key@, message@, signature@),
{
    match ed25519_dalek::VerifyingKey::from_bytes(key) {
        Ok(k) => k.verify(message, &ed25519_dalek::Signature::from_bytes(signature)).is_ok(),
        Err(_) => false,
    }
}

/// Relies on `rand::RngCore::try_fill_bytes` on `rand::rngs::OsRng`: 32 bytes
/// from the operating system's secure source, or its error. Nothing is known of
/// the bytes.
#[verifier::external_body]
pub(crate) fn random_key_bytes() -> (r: Result<[u8; 32], rand::Error>) {
    let mut bytes = [0u8; 32];
    match rand::rngs::OsRng.try_fill_bytes(&mut bytes) {
        Ok(()) => Ok(bytes),
        Err(e) => Err(e),
    }
}

#[verifier::external_type_specification]
#[verifier::external_body]
pub struct ExRandError(rand::Error);

} // verus!
