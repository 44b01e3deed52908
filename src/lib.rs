//! Text signing and verification over raw bytes, backed by either a keyed
//! BLAKE3 hash or Ed25519 signatures.

mod laws;
mod primitives;
mod text;

pub use primitives::{
    blake3_keyed_hash_of, ed25519_accepts, ed25519_public_key_of, ed25519_public_key_valid,
    ed25519_signature_of,
};
pub use text::{
    bytes_result, generated_key_set, key_set_of, key_set_round_trips, key_set_view, sign_result,
    signature_under, signs_and_verifies, verify_result,
    key_set_from_random, process_text_key_generate, process_text_sign, process_text_verify,
    Blake3, Ed25519Signer, Ed25519Verifier, KeySet, TextError, TextSignFormat, TextSigner,
    TextVerifier, KEY_LEN, PRIVATE_KEY_LABEL, PUBLIC_KEY_LABEL, SIGNATURE_LEN,
    SYMMETRIC_KEY_LABEL,
};
pub use laws::{
    lemma_key_truncation, lemma_mac_round_trip, lemma_other_key_gives_verdict,
    lemma_short_signature_is_error,
};
