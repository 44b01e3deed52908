use rcli::{
    key_set_from_random, process_text_key_generate, process_text_sign, process_text_verify,
    Blake3, Ed25519Signer, Ed25519Verifier, TextError, TextSignFormat, TextSigner, TextVerifier,
    PRIVATE_KEY_LABEL, PUBLIC_KEY_LABEL, SYMMETRIC_KEY_LABEL,
};
use std::collections::HashSet;

const MAC_KEY: &[u8; 32] = b"Kx7#pQ2!vN9$wR4&zT6*yU8@mB1^cD3%";

fn hex(s: &str) -> Vec<u8> {
    (0..s.len())
        .step_by(2)
        .map(|i| u8::from_str_radix(&s[i..i + 2], 16).unwrap())
        .collect()
}

// RFC 8032, section 7.1, test 1.
const RFC_SECRET: &str = "9d61b19deffd5a60ba844af492ec2cc44449c5697b326919703bac031cae7f60";
const RFC_PUBLIC: &str = "d75a980182b10ab7d54bfed3c964073a0ee172f3daa62325af021a68f707511a";
const RFC_SIGNATURE: &str = "e5564300c360ac729086e2cc806e828a84877f1eb8e5d974d873e065224901555fb8821590a33bacc61e39701cf9b46bd25bf5f0595bbe24655141438e7a100b";

#[test]
fn test_blake3_sign_verify() {
    let key = MAC_KEY.to_vec();
    let format = TextSignFormat::Blake3;
    let sig = process_text_sign("hello".as_bytes(), &key, format).unwrap();
    let ret = process_text_verify("hello".as_bytes(), &key, &sig, format).unwrap();
    assert!(ret);
}

#[test]
fn test_ed25519_sign_verify() {
    let sk = hex(RFC_SECRET);
    let pk = hex(RFC_PUBLIC);
    let format = TextSignFormat::Ed25519;
    let sig = process_text_sign("hello".as_bytes(), &sk, format).unwrap();
    let ret = process_text_verify("hello".as_bytes(), &pk, &sig, format).unwrap();
    assert!(ret);
}

#[test]
fn mac_golden_vector_hello() {
    let key: Vec<u8> = (0u8..32).collect();
    let sig = process_text_sign(b"hello", &key, TextSignFormat::Blake3).unwrap();
    assert_eq!(
        sig,
        hex("23278c18c8c9fe0fbfadfb940af5f08d3fd1802bf919dd6d77ebd211a19fbe29")
    );
}

#[test]
fn ed25519_rfc8032_vector() {
    let sig = process_text_sign(b"", &hex(RFC_SECRET), TextSignFormat::Ed25519).unwrap();
    assert_eq!(sig, hex(RFC_SIGNATURE));
    let ok = process_text_verify(b"", &hex(RFC_PUBLIC), &sig, TextSignFormat::Ed25519);
    assert_eq!(ok, Ok(true));
}

#[test]
fn mac_round_trip_on_several_contents() {
    let contents: [&[u8]; 4] = [b"", b"a", b"hello world", &[0u8; 3000]];
    for content in contents {
        let sig = process_text_sign(content, MAC_KEY, TextSignFormat::Blake3).unwrap();
        assert_eq!(sig.len(), 32);
        let ok = process_text_verify(content, MAC_KEY, &sig, TextSignFormat::Blake3);
        assert_eq!(ok, Ok(true));
    }
}

#[test]
fn ed25519_generated_pair_round_trip() {
    let keys = process_text_key_generate(TextSignFormat::Ed25519).unwrap();
    assert_eq!(keys.len(), 2);
    assert_eq!(keys[0].0, PRIVATE_KEY_LABEL);
    assert_eq!(keys[1].0, PUBLIC_KEY_LABEL);
    for content in [&b""[..], b"hello", b"some longer text\n"] {
        let sig = process_text_sign(content, &keys[0].1, TextSignFormat::Ed25519).unwrap();
        assert_eq!(sig.len(), 64);
        let ok = process_text_verify(content, &keys[1].1, &sig, TextSignFormat::Ed25519);
        assert_eq!(ok, Ok(true));
    }
}

#[test]
fn mac_tamper_single_bit_flip() {
    let sig = process_text_sign(b"hello", MAC_KEY, TextSignFormat::Blake3).unwrap();
    for byte in 0..sig.len() {
        for bit in 0..8 {
            let mut flipped = sig.clone();
            flipped[byte] ^= 1 << bit;
            let ok = process_text_verify(b"hello", MAC_KEY, &flipped, TextSignFormat::Blake3);
            assert_eq!(ok, Ok(false));
        }
    }
}

#[test]
fn ed25519_tamper_single_bit_flip() {
    let sig = process_text_sign(b"hello", &hex(RFC_SECRET), TextSignFormat::Ed25519).unwrap();
    for byte in [0usize, 17, 31, 32, 50, 63] {
        let mut flipped = sig.clone();
        flipped[byte] ^= 1;
        let ok = process_text_verify(b"hello", &hex(RFC_PUBLIC), &flipped, TextSignFormat::Ed25519);
        assert_eq!(ok, Ok(false));
    }
}

#[test]
fn mac_content_change_rejected() {
    let sig = process_text_sign(b"hello", MAC_KEY, TextSignFormat::Blake3).unwrap();
    let ok = process_text_verify(b"hellp", MAC_KEY, &sig, TextSignFormat::Blake3);
    assert_eq!(ok, Ok(false));
}

#[test]
fn mac_signature_of_other_length_rejected() {
    let sig = process_text_sign(b"hello", MAC_KEY, TextSignFormat::Blake3).unwrap();
    let mut longer = sig.clone();
    longer.push(0);
    assert_eq!(process_text_verify(b"hello", MAC_KEY, &longer, TextSignFormat::Blake3), Ok(false));
    assert_eq!(process_text_verify(b"hello", MAC_KEY, &sig[..31], TextSignFormat::Blake3), Ok(false));
    assert_eq!(process_text_verify(b"hello", MAC_KEY, &[], TextSignFormat::Blake3), Ok(false));
}

#[test]
fn cross_key_rejection_mac() {
    let other: Vec<u8> = (100u8..132).collect();
    let sig = process_text_sign(b"hello", MAC_KEY, TextSignFormat::Blake3).unwrap();
    let ok = process_text_verify(b"hello", &other, &sig, TextSignFormat::Blake3);
    assert_eq!(ok, Ok(false));
}

#[test]
fn cross_key_rejection_ed25519() {
    let other = process_text_key_generate(TextSignFormat::Ed25519).unwrap();
    let sig = process_text_sign(b"hello", &hex(RFC_SECRET), TextSignFormat::Ed25519).unwrap();
    let ok = process_text_verify(b"hello", &other[1].1, &sig, TextSignFormat::Ed25519);
    assert_eq!(ok, Ok(false));
}

#[test]
fn short_ed25519_signature_is_error() {
    let sig = process_text_sign(b"hello", &hex(RFC_SECRET), TextSignFormat::Ed25519).unwrap();
    for len in [0usize, 1, 32, 63] {
        let ok = process_text_verify(b"hello", &hex(RFC_PUBLIC), &sig[..len], TextSignFormat::Ed25519);
        assert_eq!(ok, Err(TextError::MalformedSignature));
    }
}

#[test]
fn long_ed25519_signature_uses_first_64_bytes() {
    let mut sig = process_text_sign(b"hello", &hex(RFC_SECRET), TextSignFormat::Ed25519).unwrap();
    sig.extend_from_slice(&[0xff; 10]);
    let ok = process_text_verify(b"hello", &hex(RFC_PUBLIC), &sig, TextSignFormat::Ed25519);
    assert_eq!(ok, Ok(true));
}

#[test]
fn key_truncation_same_signature() {
    for format in [TextSignFormat::Blake3, TextSignFormat::Ed25519] {
        let mut k1 = hex(RFC_SECRET);
        let mut k2 = k1.clone();
        k1.extend_from_slice(&[1u8; 32]);
        k2.extend_from_slice(&[2u8; 32]);
        assert_eq!(k1.len(), 64);
        let s1 = process_text_sign(b"hello", &k1, format).unwrap();
        let s2 = process_text_sign(b"hello", &k2, format).unwrap();
        let s0 = process_text_sign(b"hello", &hex(RFC_SECRET), format).unwrap();
        assert_eq!(s1, s2);
        assert_eq!(s1, s0);
    }
}

#[test]
fn long_public_key_is_truncated() {
    let mut pk = hex(RFC_PUBLIC);
    pk.extend_from_slice(&[9u8; 32]);
    let sig = hex(RFC_SIGNATURE);
    assert_eq!(process_text_verify(b"", &pk, &sig, TextSignFormat::Ed25519), Ok(true));
}

#[test]
fn generation_uniqueness() {
    let mut seen = HashSet::new();
    for _ in 0..1000 {
        let keys = process_text_key_generate(TextSignFormat::Ed25519).unwrap();
        assert_eq!(keys[0].1.len(), 32);
        assert!(seen.insert(keys[0].1.clone()));
    }
}

#[test]
fn blake3_generation_gives_one_key() {
    let keys = process_text_key_generate(TextSignFormat::Blake3).unwrap();
    assert_eq!(keys.len(), 1);
    assert_eq!(keys[0].0, SYMMETRIC_KEY_LABEL);
    assert_eq!(keys[0].1.len(), 32);
    let again = Blake3::generate().unwrap();
    assert_ne!(keys[0].1, again[0].1);
}

#[test]
fn key_set_from_random_is_exact() {
    let seed: [u8; 32] = hex(RFC_SECRET).try_into().unwrap();
    let keys = key_set_from_random(TextSignFormat::Ed25519, seed);
    assert_eq!(keys, vec![(PRIVATE_KEY_LABEL, hex(RFC_SECRET)), (PUBLIC_KEY_LABEL, hex(RFC_PUBLIC))]);
    let keys = key_set_from_random(TextSignFormat::Blake3, *MAC_KEY);
    assert_eq!(keys, vec![(SYMMETRIC_KEY_LABEL, MAC_KEY.to_vec())]);
    let generated = Ed25519Signer::generate().unwrap();
    let seed: [u8; 32] = generated[0].1.clone().try_into().unwrap();
    assert_eq!(key_set_from_random(TextSignFormat::Ed25519, seed), generated);
}

#[test]
fn short_key_is_error() {
    let key = [7u8; 31];
    for format in [TextSignFormat::Blake3, TextSignFormat::Ed25519] {
        assert_eq!(process_text_sign(b"hello", &key, format), Err(TextError::KeyTooShort));
        assert_eq!(process_text_verify(b"hello", &key, &[0u8; 64], format), Err(TextError::KeyTooShort));
        assert_eq!(process_text_sign(b"hello", &[], format), Err(TextError::KeyTooShort));
    }
    assert!(matches!(Blake3::try_new(&key), Err(TextError::KeyTooShort)));
    assert!(matches!(Ed25519Signer::try_new(&key), Err(TextError::KeyTooShort)));
    assert!(matches!(Ed25519Verifier::try_new(&key), Err(TextError::KeyTooShort)));
}

#[test]
fn invalid_public_key_is_error() {
    let mut key = [0u8; 32];
    key[0] = 2;
    assert!(matches!(Ed25519Verifier::try_new(&key), Err(TextError::InvalidPublicKey)));
    let ok = process_text_verify(b"hello", &key, &[0u8; 64], TextSignFormat::Ed25519);
    assert_eq!(ok, Err(TextError::InvalidPublicKey));
    // A key error comes before any look at the signature.
    let ok = process_text_verify(b"hello", &key, &[0u8; 3], TextSignFormat::Ed25519);
    assert_eq!(ok, Err(TextError::InvalidPublicKey));
}

#[test]
fn handles_sign_and_verify_directly() {
    let mac = Blake3::new(*MAC_KEY);
    let sig = mac.sign(b"hello");
    assert_eq!(sig, process_text_sign(b"hello", MAC_KEY, TextSignFormat::Blake3).unwrap());
    assert_eq!(mac.verify(b"hello", &sig), Ok(true));
    let mac2 = Blake3::try_new(&[MAC_KEY.as_slice(), b"tail"].concat()).unwrap();
    assert_eq!(mac2.sign(b"hello"), sig);

    let signer = Ed25519Signer::try_new(&hex(RFC_SECRET)).unwrap();
    let sig = signer.sign(b"");
    assert_eq!(sig, hex(RFC_SIGNATURE));
    let seed: [u8; 32] = hex(RFC_SECRET).try_into().unwrap();
    assert_eq!(Ed25519Signer::new(seed).sign(b""), sig);
    let verifier = Ed25519Verifier::try_new(&hex(RFC_PUBLIC)).unwrap();
    assert_eq!(verifier.verify(b"", &sig), Ok(true));
    assert_eq!(verifier.verify(b"x", &sig), Ok(false));
    assert_eq!(verifier.verify(b"", &sig[..10]), Err(TextError::MalformedSignature));
}
