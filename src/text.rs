//! Signing and verification of text under two interchangeable algorithms: a
//! keyed BLAKE3 hash compared byte for byte, and Ed25519 signatures.
//!
//! Keys and signatures are raw bytes. A key longer than 32 bytes is cut to its
//! first 32; an Ed25519 signature longer than 64 bytes is cut to its first 64.

use crate::primitives::{
    blake3_keyed_hash, blake3_keyed_hash_of, ed25519_accepts, ed25519_check_public_key,
    ed25519_public_key, ed25519_public_key_of, ed25519_public_key_valid, ed25519_sign,
    ed25519_signature_of, ed25519_verify, random_key_bytes,
};
use vstd::prelude::*;

verus! {

broadcast use vstd::array::group_array_axioms;

/// Length in bytes of every key, symmetric, secret or public.
pub const KEY_LEN: usize = 32;

/// Length in bytes of an Ed25519 signature.
pub const SIGNATURE_LEN: usize = 64;

/// The algorithm behind a sign, verify or key generation request.
#[derive(Clone, Copy, Debug, PartialEq, Eq, Structural)]
pub enum TextSignFormat {
    Blake3,
    Ed25519,
}

/// Why a request could not be carried out. A signature that does not match is
/// no error: verification then returns `Ok(false)`.
#[derive(Clone, Copy, Debug, PartialEq, Eq, Structural)]
pub enum TextError {
    /// The key holds fewer than 32 bytes.
    KeyTooShort,
    /// The 32 key bytes do not encode an Ed25519 public key.
    InvalidPublicKey,
    /// The Ed25519 signature holds fewer than 64 bytes.
    MalformedSignature,
    /// The operating system's random source failed.
    EntropyUnavailable,
}

/// The signature of `content` under a key of exactly 32 bytes.
pub open spec fn signature_under(format: TextSignFormat, content: Seq<u8>, key: Seq<u8>) -> Seq<u8> {
    match format {
        TextSignFormat::Blake3 => blake3_keyed_hash_of(key, content)@,
        TextSignFormat::Ed25519 => ed25519_signature_of(key, content)@,
    }
}

/// What signing `content` with the raw key bytes `key` gives.
pub open spec fn sign_result(format: TextSignFormat, content: Seq<u8>, key: Seq<u8>) -> Result<
    Seq<u8>,
    TextError,
> {
    if key.len() < KEY_LEN {
        Err(TextError::KeyTooShort)
    } else {
        Ok(signature_under(format, content, key.take(KEY_LEN as int)))
    }
}

/// What verifying `sig` over `content` with the raw key bytes `key` gives.
pub open spec fn verify_result(
    format: TextSignFormat,
    content: Seq<u8>,
    key: Seq<u8>,
    sig: Seq<u8>,
) -> Result<bool, TextError> {
    if key.len() < KEY_LEN {
        Err(TextError::KeyTooShort)
    } else {
        let k = key.take(KEY_LEN as int);
        match format {
            TextSignFormat::Blake3 => Ok(sig == blake3_keyed_hash_of(k, content)@),
            TextSignFormat::Ed25519 => if !ed25519_public_key_valid(k) {
                Err(TextError::InvalidPublicKey)
            } else if sig.len() < SIGNATURE_LEN {
                Err(TextError::MalformedSignature)
            } else {
                Ok(ed25519_accepts(k, content, sig.take(SIGNATURE_LEN as int)))
            },
        }
    }
}

/// The view of a `Result` that carries bytes.
pub open spec fn bytes_result(r: Result<Vec<u8>, TextError>) -> Result<Seq<u8>, TextError> {
    match r {
        Ok(v) => Ok(v@),
        Err(e) => Err(e),
    }
}

/// Label of the single key that BLAKE3 key generation yields.
pub const SYMMETRIC_KEY_LABEL: &'static str = "symmetric-key";

/// Label of the Ed25519 secret seed in a generated key set.
pub const PRIVATE_KEY_LABEL: &'static str = "private-key";

/// Label of the Ed25519 public key in a generated key set.
pub const PUBLIC_KEY_LABEL: &'static str = "public-key";

/// Generated key material: each entry is a label and its raw bytes.
pub type KeySet = Vec<(&'static str, Vec<u8>)>;

/// The labels and bytes of a key set.
pub open spec fn key_set_view(s: KeySet) -> Seq<(Seq<char>, Seq<u8>)> {
    s@.map_values(|e: (&'static str, Vec<u8>)| (e.0@, e.1@))
}

/// The key set that generation makes from 32 random bytes: the bytes are the
/// symmetric key or the Ed25519 seed, and the seed's public key follows it.
pub open spec fn key_set_of(format: TextSignFormat, random: Seq<u8>) -> Seq<(Seq<char>, Seq<u8>)> {
    match format {
        TextSignFormat::Blake3 => seq![(SYMMETRIC_KEY_LABEL@, random)],
        TextSignFormat::Ed25519 => seq![
            (PRIVATE_KEY_LABEL@, random),
            (PUBLIC_KEY_LABEL@, ed25519_public_key_of(random)@),
        ],
    }
}

/// `s` is what generation makes from some 32 random bytes, which its first
/// entry holds.
pub open spec fn generated_key_set(format: TextSignFormat, s: Seq<(Seq<char>, Seq<u8>)>) -> bool {
    &&& s.len() > 0
    &&& s[0].1.len() == KEY_LEN
    &&& s == key_set_of(format, s[0].1)
}

/// Every content signed with `secret` verifies as genuine with `public`.
pub open spec fn signs_and_verifies(format: TextSignFormat, secret: Seq<u8>, public: Seq<u8>) -> bool {
    forall|m: Seq<u8>|
        #[trigger] sign_result(format, m, secret) is Ok && verify_result(
            format,
            m,
            public,
            sign_result(format, m, secret)->Ok_0,
        ) == Ok::<bool, TextError>(true)
}

/// The first entry of a key set signs what its last entry verifies.
pub open spec fn key_set_round_trips(format: TextSignFormat, s: Seq<(Seq<char>, Seq<u8>)>) -> bool {
    s.len() > 0 && signs_and_verifies(format, s[0].1, s[s.len() - 1].1)
}

/// Copies the first `N` bytes of `bytes`.
fn prefix<const N: usize>(bytes: &[u8]) -> (r: [u8; N])
    requires
        bytes@.len() >= N,
    ensures
        r@ == bytes@.take(N as int),
{
    let mut out: [u8; N] = [0u8; N];
    let mut i: usize = 0;
    while i < N
        invariant
            i <= N,
            N <= bytes@.len(),
            out@.len() == N,
            forall|j: int| 0 <= j < i ==> out@[j] == bytes@[j],
        decreases N - i,
    {
        out[i] = bytes[i];
        i = i + 1;
    }
    assert(out@ =~= bytes@.take(N as int));
    out
}

/// A signer and verifier that uses BLAKE3 in keyed mode.
pub struct Blake3 {
    key: [u8; 32],
}

impl View for Blake3 {
    type V = Seq<u8>;

    closed spec fn view(&self) -> Seq<u8> {
        self.key@
    }
}

impl Blake3 {
    /// Takes the first 32 bytes of `key`; fails with `KeyTooShort` on fewer.
    pub fn try_new(key: &[u8]) -> (r: Result<Blake3, TextError>)
        ensures
            match r {
                Ok(b) => key@.len() >= KEY_LEN && b@ == key@.take(KEY_LEN as int),
                Err(e) => key@.len() < KEY_LEN && e == TextError::KeyTooShort,
            },
    {
        if key.len() < KEY_LEN {
            return Err(TextError::KeyTooShort);
        }
        Ok(Blake3::new(prefix::<32>(key)))
    }

    pub fn new(key: [u8; 32]) -> (r: Blake3)
        ensures
            r@ == key@,
    {
        Blake3 { key }
    }
}

/// Produces a signature over the whole of a content.
pub trait TextSigner {
    /// The signature that `sign` returns for `content`.
    spec fn signature_for(&self, content: Seq<u8>) -> Seq<u8>;

    fn sign(&self, content: &[u8]) -> (r: Vec<u8>)
        ensures
            r@ == self.signature_for(content@),
    ;
}

/// Checks a signature over the whole of a content.
pub trait TextVerifier {
    /// What `verify` returns for `content` and `sig`.
    spec fn verdict_for(&self, content: Seq<u8>, sig: Seq<u8>) -> Result<bool, TextError>;

    fn verify(&self, content: &[u8], sig: &[u8]) -> (r: Result<bool, TextError>)
        ensures
            r == self.verdict_for(content@, sig@),
    ;
}

/// Copies bytes into a fresh vector.
fn to_vec(bytes: &[u8]) -> (r: Vec<u8>)
    ensures
        r@ == bytes@,
{
    let mut out: Vec<u8> = Vec::new();
    let mut i: usize = 0;
    while i < bytes.len()
        invariant
            i <= bytes@.len(),
            out@ == bytes@.take(i as int),
        decreases bytes@.len() - i,
    {
        out.push(bytes[i]);
        i = i + 1;
        assert(out@ =~= bytes@.take(i as int));
    }
    assert(bytes@.take(bytes@.len() as int) =~= bytes@);
    out
}

impl TextSigner for Blake3 {
    open spec fn signature_for(&self, content: Seq<u8>) -> Seq<u8> {
        signature_under(TextSignFormat::Blake3, content, self@)
    }

    fn sign(&self, content: &[u8]) -> (r: Vec<u8>) {
        let digest = blake3_keyed_hash(&self.key, content);
        to_vec(digest.as_slice())
    }
}

impl TextVerifier for Blake3 {
    /// The digest is compared with the whole of `sig`, byte for byte.
    open spec fn verdict_for(&self, content: Seq<u8>, sig: Seq<u8>) -> Result<bool, TextError> {
        Ok(sig == blake3_keyed_hash_of(self@, content)@)
    }

    fn verify(&self, content: &[u8], sig: &[u8]) -> (r: Result<bool, TextError>) {
        let digest = blake3_keyed_hash(&self.key, content);
        if sig.len() != digest.len() {
            return Ok(false);
        }
        let mut i: usize = 0;
        while i < sig.len()
            invariant
                i <= sig@.len(),
                sig@.len() == digest@.len(),
                digest == blake3_keyed_hash_of(self.key@, content@),
                forall|j: int| 0 <= j < i ==> sig@[j] == digest@[j],
            decreases sig@.len() - i,
        {
            if sig[i] != digest[i] {
                assert(sig@[i as int] != digest@[i as int]);
                return Ok(false);
            }
            i = i + 1;
        }
        assert(sig@ =~= digest@);
        Ok(true)
    }
}

/// An Ed25519 signer, holding the 32-byte secret seed.
pub struct Ed25519Signer {
    key: [u8; 32],
}

impl View for Ed25519Signer {
    type V = Seq<u8>;

    closed spec fn view(&self) -> Seq<u8> {
        self.key@
    }
}

impl Ed25519Signer {
    /// Takes the first 32 bytes of `key` as the seed; fails with `KeyTooShort`
    /// on fewer.
    pub fn try_new(key: &[u8]) -> (r: Result<Ed25519Signer, TextError>)
        ensures
            match r {
                Ok(s) => key@.len() >= KEY_LEN && s@ == key@.take(KEY_LEN as int),
                Err(e) => key@.len() < KEY_LEN && e == TextError::KeyTooShort,
            },
    {
        if key.len() < KEY_LEN {
            return Err(TextError::KeyTooShort);
        }
        Ok(Ed25519Signer::new(prefix::<32>(key)))
    }

    pub fn new(key: [u8; 32]) -> (r: Ed25519Signer)
        ensures
            r@ == key@,
    {
        Ed25519Signer { key }
    }
}

impl TextSigner for Ed25519Signer {
    open spec fn signature_for(&self, content: Seq<u8>) -> Seq<u8> {
        signature_under(TextSignFormat::Ed25519, content, self@)
    }

    fn sign(&self, content: &[u8]) -> (r: Vec<u8>) {
        let signature = ed25519_sign(&self.key, content);
        to_vec(signature.as_slice())
    }
}

/// An Ed25519 verifier, holding a 32-byte public key that decompresses to a
/// curve point.
pub struct Ed25519Verifier {
    key: [u8; 32],
}

impl View for Ed25519Verifier {
    type V = Seq<u8>;

    closed spec fn view(&self) -> Seq<u8> {
        self.key@
    }
}

impl Ed25519Verifier {
    #[verifier::type_invariant]
    spec fn valid_key(&self) -> bool {
        ed25519_public_key_valid(self.key@)
    }

    /// Takes the first 32 bytes of `key` as the public key; fails with
    /// `KeyTooShort` on fewer and with `InvalidPublicKey` where they encode no
    /// public key.
    pub fn try_new(key: &[u8]) -> (r: Result<Ed25519Verifier, TextError>)
        ensures
            match r {
                Ok(v) => key@.len() >= KEY_LEN && v@ == key@.take(KEY_LEN as int)
                    && ed25519_public_key_valid(v@),
                Err(e) => if key@.len() < KEY_LEN {
                    e == TextError::KeyTooShort
                } else {
                    !ed25519_public_key_valid(key@.take(KEY_LEN as int)) && e
                        == TextError::InvalidPublicKey
                },
            },
    {
        if key.len() < KEY_LEN {
            return Err(TextError::KeyTooShort);
        }
        let k = prefix::<32>(key);
        if !ed25519_check_public_key(&k) {
            return Err(TextError::InvalidPublicKey);
        }
        Ok(Ed25519Verifier::new(k))
    }

    pub fn new(key: [u8; 32]) -> (r: Ed25519Verifier)
        requires
            ed25519_public_key_valid(key@),
        ensures
            r@ == key@,
    {
        Ed25519Verifier { key }
    }
}

impl TextVerifier for Ed25519Verifier {
    /// Only the first 64 bytes of `sig` are read.
    open spec fn verdict_for(&self, content: Seq<u8>, sig: Seq<u8>) -> Result<bool, TextError> {
        if sig.len() < SIGNATURE_LEN {
            Err(TextError::MalformedSignature)
        } else {
            Ok(ed25519_accepts(self@, content, sig.take(SIGNATURE_LEN as int)))
        }
    }

    fn verify(&self, content: &[u8], sig: &[u8]) -> (r: Result<bool, TextError>) {
        proof {
            use_type_invariant(self);
        }
        if sig.len() < SIGNATURE_LEN {
            return Err(TextError::MalformedSignature);
        }
        let signature = prefix::<64>(sig);
        Ok(ed25519_verify(&self.key, content, &signature))
    }
}

/// Builds the key set of `format` from 32 random bytes.
pub fn key_set_from_random(format: TextSignFormat, random: [u8; 32]) -> (r: KeySet)
    ensures
        key_set_view(r) == key_set_of(format, random@),
        generated_key_set(format, key_set_view(r)),
        key_set_round_trips(format, key_set_view(r)),
{
    let mut r: KeySet = Vec::new();
    assert(random@.take(KEY_LEN as int) =~= random@);
    match format {
        TextSignFormat::Blake3 => {
            r.push((SYMMETRIC_KEY_LABEL, to_vec(random.as_slice())));
        },
        TextSignFormat::Ed25519 => {
            let public = ed25519_public_key(&random);
            r.push((PRIVATE_KEY_LABEL, to_vec(random.as_slice())));
            r.push((PUBLIC_KEY_LABEL, to_vec(public.as_slice())));
            assert(public@.take(KEY_LEN as int) =~= public@);
            assert forall|m: Seq<u8>|
                #[trigger] sign_result(format, m, random@) is Ok && verify_result(
                    format,
                    m,
                    public@,
                    sign_result(format, m, random@)->Ok_0,
                ) == Ok::<bool, TextError>(true) by {
                let sig = ed25519_signature_of(random@, m)@;
                assert(sig.take(SIGNATURE_LEN as int) =~= sig);
                assert(ed25519_accepts(public@, m, ed25519_signature_of(random@, m)@));
            }
        },
    }
    assert(key_set_view(r) =~= key_set_of(format, random@));
    r
}

/// Draws 32 bytes from the operating system's secure source.
fn random_key() -> (r: Result<[u8; 32], TextError>)
    ensures
        r matches Err(e) ==> e == TextError::EntropyUnavailable,
{
    match random_key_bytes() {
        Ok(bytes) => Ok(bytes),
        Err(_) => Err(TextError::EntropyUnavailable),
    }
}

impl Blake3 {
    /// A fresh random 32-byte symmetric key, labelled `symmetric-key`.
    pub fn generate() -> (r: Result<KeySet, TextError>)
        ensures
            match r {
                Ok(s) => generated_key_set(TextSignFormat::Blake3, key_set_view(s))
                    && key_set_round_trips(TextSignFormat::Blake3, key_set_view(s)),
                Err(e) => e == TextError::EntropyUnavailable,
            },
    {
        match random_key() {
            Ok(random) => Ok(key_set_from_random(TextSignFormat::Blake3, random)),
            Err(e) => Err(e),
        }
    }
}

impl Ed25519Signer {
    /// A fresh random Ed25519 seed labelled `private-key`, followed by its
    /// public key labelled `public-key`.
    pub fn generate() -> (r: Result<KeySet, TextError>)
        ensures
            match r {
                Ok(s) => generated_key_set(TextSignFormat::Ed25519, key_set_view(s))
                    && key_set_round_trips(TextSignFormat::Ed25519, key_set_view(s)),
                Err(e) => e == TextError::EntropyUnavailable,
            },
    {
        match random_key() {
            Ok(random) => Ok(key_set_from_random(TextSignFormat::Ed25519, random)),
            Err(e) => Err(e),
        }
    }
}

/// Generates fresh key material for `format`. Nothing is written anywhere.
pub fn process_text_key_generate(format: TextSignFormat) -> (r: Result<KeySet, TextError>)
    ensures
        match r {
            Ok(s) => generated_key_set(format, key_set_view(s)) && key_set_round_trips(
                format,
                key_set_view(s),
            ),
            Err(e) => e == TextError::EntropyUnavailable,
        },
{
    match format {
        TextSignFormat::Blake3 => Blake3::generate(),
        TextSignFormat::Ed25519 => Ed25519Signer::generate(),
    }
}

/// Signs the whole of `content` with the first 32 bytes of `key`.
pub fn process_text_sign(content: &[u8], key: &[u8], format: TextSignFormat) -> (r: Result<
    Vec<u8>,
    TextError,
>)
    ensures
        bytes_result(r) == sign_result(format, content@, key@),
{
    match format {
        TextSignFormat::Blake3 => match Blake3::try_new(key) {
            Ok(signer) => Ok(signer.sign(content)),
            Err(e) => Err(e),
        },
        TextSignFormat::Ed25519 => match Ed25519Signer::try_new(key) {
            Ok(signer) => Ok(signer.sign(content)),
            Err(e) => Err(e),
        },
    }
}

/// Verifies `sig` over the whole of `content` with the first 32 bytes of `key`.
pub fn process_text_verify(content: &[u8], key: &[u8], sig: &[u8], format: TextSignFormat) -> (r:
    Result<bool, TextError>)
    ensures
        r == verify_result(format, content@, key@, sig@),
{
    match format {
        TextSignFormat::Blake3 => match Blake3::try_new(key) {
            Ok(verifier) => verifier.verify(content, sig),
            Err(e) => Err(e),
        },
        TextSignFormat::Ed25519 => match Ed25519Verifier::try_new(key) {
            Ok(verifier) => verifier.verify(content, sig),
            Err(e) => Err(e),
        },
    }
}

} // verus!
