//! Tests of symmetric token decryption and asymmetric token verification.

use ccm::aead::generic_array::GenericArray;
use ccm::aead::AeadInPlace;
use ccm::KeyInit;
use p256::ecdsa::signature::Signer;
use p256::ecdsa::{Signature, SigningKey};

use coapcore::ace::HeaderMap;
use coapcore::error::CredentialError;
use coapcore::scope::UnionScope;
use coapcore::seccfg::{ConfigBuilder, ServerSecurityConfig, ALG_AESCCM256, ALG_ES256};

type Aes256Ccm = ccm::Ccm<aes::Aes256, ccm::consts::U16, ccm::consts::U13>;

/// Encrypts `plaintext` under `key`/`nonce`/`aad` and returns
/// ciphertext-plus-trailing-tag, as a token arrives on the wire.
fn encrypt(key: &[u8; 32], nonce: &[u8; 13], aad: &[u8], plaintext: &[u8]) -> Vec<u8> {
    let cipher = Aes256Ccm::new(GenericArray::from_slice(key));
    let mut buffer = plaintext.to_vec();
    let tag = cipher
        .encrypt_in_place_detached(GenericArray::from_slice(nonce), aad, &mut buffer)
        .expect("encryption fits the mode's limits");
    buffer.extend_from_slice(&tag);
    buffer
}

fn headers_with_iv(iv: &[u8]) -> HeaderMap {
    HeaderMap { alg: Some(ALG_AESCCM256), iv: Some(iv.to_vec()) }
}

#[test]
fn decrypt_round_trip_minimal_claims() {
    // Key and nonce all zero, empty AAD, claims set {9: h'80'}: an empty
    // scope and no time bounds.
    let key = [0u8; 32];
    let nonce = [0u8; 13];
    let plaintext = [0xa1, 0x09, 0x41, 0x80];
    let mut token = encrypt(&key, &nonce, b"", &plaintext);

    let cfg = ConfigBuilder::new().with_aif_symmetric_as_aesccm256(key);
    let (claims, cwt) = cfg
        .decrypt_symmetric_token(&headers_with_iv(&nonce), b"", &mut token)
        .expect("authentic token decrypts");
    match &claims.scope {
        UnionScope::Aif(v) => assert_eq!(v.entries.len(), 0),
        _ => panic!("scope should be the parsed (empty) AIF value"),
    }
    assert!(claims.time_constraint.not_before.is_none());
    assert!(claims.time_constraint.not_after.is_none());
    assert!(!claims.is_important);
    assert!(cwt.aud.is_none());
    assert_eq!(cwt.scope, vec![0x80]);
}

#[test]
fn decrypt_recovers_scope_and_times() {
    let key = [7u8; 32];
    let nonce = [9u8; 13];
    // {4: 100, 5: 50, 9: h'81 82 64 2f6c6564 05'}: scope [["/led", 5]].
    let plaintext = [
        0xa3, 0x04, 0x18, 0x64, 0x05, 0x18, 0x32, 0x09, 0x48, 0x81, 0x82, 0x64, 0x2f, 0x6c,
        0x65, 0x64, 0x05,
    ];
    let mut token = encrypt(&key, &nonce, b"aad bytes", &plaintext);

    let cfg = ConfigBuilder::new().with_aif_symmetric_as_aesccm256(key);
    let (claims, cwt) = cfg
        .decrypt_symmetric_token(&headers_with_iv(&nonce), b"aad bytes", &mut token)
        .expect("authentic token decrypts");
    match &claims.scope {
        UnionScope::Aif(v) => {
            assert_eq!(v.entries.len(), 1);
            assert_eq!(v.entries[0].path, b"/led".to_vec());
            assert_eq!(v.entries[0].mask, 5);
        },
        _ => panic!("scope should be the parsed AIF value"),
    }
    assert_eq!(claims.time_constraint.not_after, Some(100));
    assert_eq!(claims.time_constraint.not_before, Some(50));
    assert_eq!(cwt.exp, Some(100));
    assert_eq!(cwt.nbf, Some(50));
}

#[test]
fn decrypt_rejects_flipped_ciphertext_bit() {
    let key = [0u8; 32];
    let nonce = [0u8; 13];
    let plaintext = [0xa1, 0x09, 0x41, 0x80];
    let mut token = encrypt(&key, &nonce, b"", &plaintext);
    token[0] ^= 0x01;

    let cfg = ConfigBuilder::new().with_aif_symmetric_as_aesccm256(key);
    let r = cfg.decrypt_symmetric_token(&headers_with_iv(&nonce), b"", &mut token);
    assert_eq!(r.err(), Some(CredentialError::VerifyFailed));
}

#[test]
fn decrypt_rejects_flipped_tag_bit() {
    let key = [0u8; 32];
    let nonce = [0u8; 13];
    let plaintext = [0xa1, 0x09, 0x41, 0x80];
    let mut token = encrypt(&key, &nonce, b"", &plaintext);
    let last = token.len() - 1;
    token[last] ^= 0x80;

    let cfg = ConfigBuilder::new().with_aif_symmetric_as_aesccm256(key);
    let r = cfg.decrypt_symmetric_token(&headers_with_iv(&nonce), b"", &mut token);
    assert_eq!(r.err(), Some(CredentialError::VerifyFailed));
}

#[test]
fn decrypt_rejects_wrong_aad() {
    let key = [0u8; 32];
    let nonce = [0u8; 13];
    let plaintext = [0xa1, 0x09, 0x41, 0x80];
    let mut token = encrypt(&key, &nonce, b"original aad", &plaintext);

    let cfg = ConfigBuilder::new().with_aif_symmetric_as_aesccm256(key);
    let r = cfg.decrypt_symmetric_token(&headers_with_iv(&nonce), b"other aad", &mut token);
    assert_eq!(r.err(), Some(CredentialError::VerifyFailed));
}

#[test]
fn short_ciphertext_is_inconsistent_with_key() {
    let cfg = ConfigBuilder::new().with_aif_symmetric_as_aesccm256([0u8; 32]);
    let mut short = vec![0u8; 15];
    let r = cfg.decrypt_symmetric_token(&headers_with_iv(&[0u8; 13]), b"", &mut short);
    assert_eq!(r.err(), Some(CredentialError::InconsistentDetails));
}

#[test]
fn short_ciphertext_is_inconsistent_without_key() {
    let cfg = ConfigBuilder::new();
    let mut short = vec![0u8; 15];
    let r = cfg.decrypt_symmetric_token(&headers_with_iv(&[0u8; 13]), b"", &mut short);
    assert_eq!(r.err(), Some(CredentialError::InconsistentDetails));
}

#[test]
fn decrypt_without_key_reports_key_not_present() {
    let cfg = ConfigBuilder::new();
    let mut token = vec![0u8; 32];
    let r = cfg.decrypt_symmetric_token(&headers_with_iv(&[0u8; 13]), b"", &mut token);
    assert_eq!(r.err(), Some(CredentialError::KeyNotPresent));
}

#[test]
fn decrypt_rejects_wrong_nonce_length() {
    let cfg = ConfigBuilder::new().with_aif_symmetric_as_aesccm256([0u8; 32]);
    let mut token = vec![0u8; 32];
    let r = cfg.decrypt_symmetric_token(&headers_with_iv(&[0u8; 12]), b"", &mut token);
    assert_eq!(r.err(), Some(CredentialError::InconsistentDetails));
}

#[test]
fn decrypt_rejects_missing_iv() {
    let cfg = ConfigBuilder::new().with_aif_symmetric_as_aesccm256([0u8; 32]);
    let mut token = vec![0u8; 32];
    let headers = HeaderMap { alg: Some(ALG_AESCCM256), iv: None };
    let r = cfg.decrypt_symmetric_token(&headers, b"", &mut token);
    assert_eq!(r.err(), Some(CredentialError::InconsistentDetails));
}

#[test]
fn decrypt_rejects_undecodable_plaintext() {
    let key = [0u8; 32];
    let nonce = [0u8; 13];
    let mut token = encrypt(&key, &nonce, b"", b"not a claims set");

    let cfg = ConfigBuilder::new().with_aif_symmetric_as_aesccm256(key);
    let r = cfg.decrypt_symmetric_token(&headers_with_iv(&nonce), b"", &mut token);
    assert_eq!(r.err(), Some(CredentialError::UnsupportedExtension));
}

#[test]
fn decrypt_rejects_unparsable_scope() {
    let key = [0u8; 32];
    let nonce = [0u8; 13];
    // {9: h'00'}: the scope bytes are not an AIF array.
    let plaintext = [0xa1, 0x09, 0x41, 0x00];
    let mut token = encrypt(&key, &nonce, b"", &plaintext);

    let cfg = ConfigBuilder::new().with_aif_symmetric_as_aesccm256(key);
    let r = cfg.decrypt_symmetric_token(&headers_with_iv(&nonce), b"", &mut token);
    assert_eq!(r.err(), Some(CredentialError::UnsupportedExtension));
}

/// A deterministic ES256 key pair for the verification tests.
fn test_key() -> (SigningKey, [u8; 32], [u8; 32]) {
    let sk = SigningKey::from_slice(&[1u8; 32]).expect("scalar in range");
    let point = sk.verifying_key().to_encoded_point(false);
    let mut x = [0u8; 32];
    let mut y = [0u8; 32];
    x.copy_from_slice(point.x().unwrap());
    y.copy_from_slice(point.y().unwrap());
    (sk, x, y)
}

fn es256_headers() -> HeaderMap {
    HeaderMap { alg: Some(ALG_ES256), iv: None }
}

#[test]
fn verify_accepts_valid_token_with_configured_audience() {
    let (sk, x, y) = test_key();
    // {3: "rs1", 9: h'80'}
    let payload = [0xa2, 0x03, 0x63, 0x72, 0x73, 0x31, 0x09, 0x41, 0x80];
    let signature: Signature = sk.sign(&payload);

    let cfg = ConfigBuilder::new().with_aif_asymmetric_es256(x, y, b"rs1".to_vec());
    let (claims, cwt) = cfg
        .verify_asymmetric_token(&es256_headers(), &payload, &signature.to_bytes(), &payload)
        .expect("valid token with matching audience verifies");
    match &claims.scope {
        UnionScope::Aif(v) => assert_eq!(v.entries.len(), 0),
        _ => panic!("scope should be the parsed AIF value"),
    }
    assert!(!claims.is_important);
    assert_eq!(cwt.aud.as_deref(), Some(b"rs1".as_slice()));
}

#[test]
fn verify_accepts_audience_of_maximum_length() {
    let (sk, x, y) = test_key();
    // {3: "abcdefgh", 9: h'80'}: an audience of the longest accepted size.
    let payload = [
        0xa2, 0x03, 0x68, 0x61, 0x62, 0x63, 0x64, 0x65, 0x66, 0x67, 0x68, 0x09, 0x41, 0x80,
    ];
    let signature: Signature = sk.sign(&payload);

    let cfg = ConfigBuilder::new().with_aif_asymmetric_es256(x, y, b"abcdefgh".to_vec());
    let (_, cwt) = cfg
        .verify_asymmetric_token(&es256_headers(), &payload, &signature.to_bytes(), &payload)
        .expect("eight-byte audience verifies");
    assert_eq!(cwt.aud.as_deref(), Some(b"abcdefgh".as_slice()));
}

#[test]
fn verify_rejects_audience_mismatch() {
    let (sk, x, y) = test_key();
    // {3: "rs2", 9: h'80'}: validly signed, but for another audience.
    let payload = [0xa2, 0x03, 0x63, 0x72, 0x73, 0x32, 0x09, 0x41, 0x80];
    let signature: Signature = sk.sign(&payload);

    let cfg = ConfigBuilder::new().with_aif_asymmetric_es256(x, y, b"rs1".to_vec());
    let r = cfg.verify_asymmetric_token(&es256_headers(), &payload, &signature.to_bytes(), &payload);
    assert_eq!(r.err(), Some(CredentialError::VerifyFailed));
}

#[test]
fn verify_rejects_missing_audience_claim() {
    let (sk, x, y) = test_key();
    // {9: h'80'}: validly signed but naming no audience.
    let payload = [0xa1, 0x09, 0x41, 0x80];
    let signature: Signature = sk.sign(&payload);

    let cfg = ConfigBuilder::new().with_aif_asymmetric_es256(x, y, b"rs1".to_vec());
    let r = cfg.verify_asymmetric_token(&es256_headers(), &payload, &signature.to_bytes(), &payload);
    assert_eq!(r.err(), Some(CredentialError::VerifyFailed));
}

#[test]
fn verify_rejects_foreign_algorithm_with_key() {
    let (_, x, y) = test_key();
    let cfg = ConfigBuilder::new().with_aif_asymmetric_es256(x, y, b"rs1".to_vec());
    let headers = HeaderMap { alg: Some(-8), iv: None };
    let r = cfg.verify_asymmetric_token(&headers, b"data", b"sig", b"payload");
    assert_eq!(r.err(), Some(CredentialError::UnsupportedAlgorithm));
}

#[test]
fn verify_rejects_foreign_algorithm_without_key() {
    let cfg = ConfigBuilder::new();
    let headers = HeaderMap { alg: Some(35), iv: None };
    let r = cfg.verify_asymmetric_token(&headers, b"data", b"sig", b"payload");
    assert_eq!(r.err(), Some(CredentialError::UnsupportedAlgorithm));
    let headers = HeaderMap { alg: None, iv: None };
    let r = cfg.verify_asymmetric_token(&headers, b"data", b"sig", b"payload");
    assert_eq!(r.err(), Some(CredentialError::UnsupportedAlgorithm));
}

#[test]
fn verify_without_key_reports_key_not_present() {
    let cfg = ConfigBuilder::new();
    let r = cfg.verify_asymmetric_token(&es256_headers(), b"data", b"sig", b"payload");
    assert_eq!(r.err(), Some(CredentialError::KeyNotPresent));
}

#[test]
fn verify_rejects_malformed_signature() {
    let (_, x, y) = test_key();
    let cfg = ConfigBuilder::new().with_aif_asymmetric_es256(x, y, b"rs1".to_vec());
    // 3 bytes can never be an ES256 signature.
    let r = cfg.verify_asymmetric_token(&es256_headers(), b"data", b"sig", b"payload");
    assert_eq!(r.err(), Some(CredentialError::InconsistentDetails));
}

#[test]
fn verify_rejects_corrupted_signature() {
    let (sk, x, y) = test_key();
    let payload = [0xa2, 0x03, 0x63, 0x72, 0x73, 0x31, 0x09, 0x41, 0x80];
    let signature: Signature = sk.sign(&payload);
    let mut sig_bytes = signature.to_bytes().to_vec();
    sig_bytes[10] ^= 0x01;

    let cfg = ConfigBuilder::new().with_aif_asymmetric_es256(x, y, b"rs1".to_vec());
    let r = cfg.verify_asymmetric_token(&es256_headers(), &payload, &sig_bytes, &payload);
    assert_eq!(r.err(), Some(CredentialError::VerifyFailed));
}

#[test]
fn verify_rejects_invalid_key_point() {
    let cfg = ConfigBuilder::new().with_aif_asymmetric_es256(
        [0xff; 32],
        [0xff; 32],
        b"rs1".to_vec(),
    );
    let r = cfg.verify_asymmetric_token(&es256_headers(), b"data", &[0u8; 64], b"payload");
    assert_eq!(r.err(), Some(CredentialError::InconsistentDetails));
}

#[test]
fn verify_rejects_signature_over_other_data() {
    let (sk, x, y) = test_key();
    let payload = [0xa2, 0x03, 0x63, 0x72, 0x73, 0x31, 0x09, 0x41, 0x80];
    let signature: Signature = sk.sign(b"something else entirely");

    let cfg = ConfigBuilder::new().with_aif_asymmetric_es256(x, y, b"rs1".to_vec());
    let r = cfg.verify_asymmetric_token(&es256_headers(), &payload, &signature.to_bytes(), &payload);
    assert_eq!(r.err(), Some(CredentialError::VerifyFailed));
}
