//! Properties that relate signing and verification, proved over the same
//! spec functions that the executable functions' contracts use.

use crate::primitives::ed25519_public_key_valid;
use crate::text::{sign_result, verify_result, TextError, TextSignFormat, KEY_LEN, SIGNATURE_LEN};
use vstd::prelude::*;

verus! {

broadcast use vstd::array::group_array_axioms;

/// A keyed BLAKE3 signature verifies as genuine under the key that made it.
pub proof fn lemma_mac_round_trip(content: Seq<u8>, key: Seq<u8>)
    requires
        key.len() >= KEY_LEN,
    ensures
        sign_result(TextSignFormat::Blake3, content, key) is Ok,
        verify_result(
            TextSignFormat::Blake3,
            content,
            key,
            sign_result(TextSignFormat::Blake3, content, key)->Ok_0,
        ) == Ok::<bool, TextError>(true),
{
}

/// Verifying a signature under a key other than the one that made it yields a
/// verdict, never an error, as long as that key itself is usable: 32 bytes or
/// more, and for Ed25519 a valid public key.
pub proof fn lemma_other_key_gives_verdict(
    format: TextSignFormat,
    content: Seq<u8>,
    signing_key: Seq<u8>,
    verifying_key: Seq<u8>,
)
    requires
        signing_key.len() >= KEY_LEN,
        verifying_key.len() >= KEY_LEN,
        format == TextSignFormat::Ed25519 ==> ed25519_public_key_valid(
            verifying_key.take(KEY_LEN as int),
        ),
    ensures
        verify_result(
            format,
            content,
            verifying_key,
            sign_result(format, content, signing_key)->Ok_0,
        ) is Ok,
{
}

/// An Ed25519 signature shorter than 64 bytes is an error, never a `false`
/// verdict; under a usable public key the error is `MalformedSignature`.
pub proof fn lemma_short_signature_is_error(content: Seq<u8>, key: Seq<u8>, sig: Seq<u8>)
    requires
        sig.len() < SIGNATURE_LEN,
    ensures
        verify_result(TextSignFormat::Ed25519, content, key, sig) is Err,
        key.len() >= KEY_LEN && ed25519_public_key_valid(key.take(KEY_LEN as int)) ==> verify_result(
            TextSignFormat::Ed25519,
            content,
            key,
            sig,
        ) == Err::<bool, TextError>(TextError::MalformedSignature),
{
}

/// Only the first 32 bytes of a key count: two keys that agree on them sign
/// and verify alike.
pub proof fn lemma_key_truncation(
    format: TextSignFormat,
    content: Seq<u8>,
    key1: Seq<u8>,
    key2: Seq<u8>,
    sig: Seq<u8>,
)
    requires
        key1.len() >= KEY_LEN,
        key2.len() >= KEY_LEN,
        key1.take(KEY_LEN as int) == key2.take(KEY_LEN as int),
    ensures
        sign_result(format, content, key1) == sign_result(format, content, key2),
        verify_result(format, content, key1, sig) == verify_result(format, content, key2, sig),
{
}

} // verus!
