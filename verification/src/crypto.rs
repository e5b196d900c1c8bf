//! Adapters for the two cryptographic primitives the token formats rest on:
//! AES-256-CCM decryption with a detached tag, and ECDSA (ES256) signature
//! verification over the P-256 curve.
//!
//! Both primitives are deterministic functions of their inputs; their results
//! are named by uninterpreted spec functions, and everything the policy does
//! with those results is verified.

use vstd::prelude::*;

use ccm::aead::generic_array::GenericArray;
use ccm::aead::AeadInPlace;
use ccm::KeyInit;
use p256::ecdsa::signature::Verifier;

verus! {

/// The plaintext that AES-256-CCM decryption (16-byte tag, 13-byte nonce)
/// yields for the given key, nonce, additional authenticated data,
/// ciphertext and tag; `None` when the tag does not authenticate the data
/// (or the ciphertext exceeds the mode's length limit).
pub uninterp spec fn spec_aes256ccm_plaintext(
    key: Seq<u8>,
    nonce: Seq<u8>,
    aad: Seq<u8>,
    ciphertext: Seq<u8>,
    tag: Seq<u8>,
) -> Option<Seq<u8>>;

/// Relies on `ccm::Ccm::<aes::Aes256, U16, U13>::decrypt_in_place_detached`:
/// the outcome is a function of key, nonce, AAD, ciphertext and tag alone;
/// on success the buffer holds the plaintext of the same length, on failure
/// the buffer is zeroed without changing its length.
#[verifier::external_body]
pub(crate) fn aes256ccm_decrypt_detached(
    key: &[u8; 32],
    nonce: &[u8],
    aad: &[u8],
    buffer: &mut Vec<u8>,
    tag: &[u8],
) -> (r: bool)
    requires
        nonce@.len() == 13,
        tag@.len() == 16,
    ensures
        r == (spec_aes256ccm_plaintext(key@, nonce@, aad@, old(buffer)@, tag@) is Some),
        r ==> Some(final(buffer)@) == spec_aes256ccm_plaintext(
            key@,
            nonce@,
            aad@,
            old(buffer)@,
            tag@,
        ),
        final(buffer)@.len() == old(buffer)@.len(),
{
    let cipher = ccm::Ccm::<aes::Aes256, ccm::consts::U16, ccm::consts::U13>::new(
        GenericArray::from_slice(&key[..]),
    );
    let tag_arr = GenericArray::from_slice(tag);
    let nonce_arr = GenericArray::from_slice(nonce);
    cipher.decrypt_in_place_detached(nonce_arr, aad, buffer.as_mut_slice(), tag_arr).is_ok()
}

/// Outcome of one ES256 verification attempt.
#[derive(Clone, Copy, PartialEq, Eq, Structural, Debug)]
pub enum Es256Verification {
    /// The two coordinates do not name a point on the P-256 curve (or name
    /// the identity), so no verification key could be formed.
    InvalidPoint,
    /// The signature bytes are not 64 bytes of two scalars in range.
    MalformedSignature,
    /// The signature proves the data under the key.
    Accepted,
    /// The signature does not prove the data under the key.
    Rejected,
}

/// The outcome ES256 verification yields for the given public-key
/// coordinates, signed data and signature.
pub uninterp spec fn spec_es256_verification(
    x: Seq<u8>,
    y: Seq<u8>,
    data: Seq<u8>,
    signature: Seq<u8>,
) -> Es256Verification;

/// Relies on `p256::ecdsa::VerifyingKey::from_encoded_point`,
/// `p256::ecdsa::Signature::from_slice` and the `Verifier` impl of
/// `p256::ecdsa::VerifyingKey` (ECDSA over P-256 with SHA-256): all three are
/// functions of the key coordinates, the message and the signature bytes
/// alone.
#[verifier::external_body]
pub(crate) fn es256_verify(x: &[u8; 32], y: &[u8; 32], signed_data: &[u8], signature: &[u8]) -> (r:
    Es256Verification)
    ensures
        r == spec_es256_verification(x@, y@, signed_data@, signature@),
{
    let point = p256::EncodedPoint::from_affine_coordinates(x.into(), y.into(), false);
    let key = match p256::ecdsa::VerifyingKey::from_encoded_point(&point) {
        Ok(k) => k,
        Err(_) => return Es256Verification::InvalidPoint,
    };
    let sig = match p256::ecdsa::Signature::from_slice(signature) {
        Ok(s) => s,
        Err(_) => return Es256Verification::MalformedSignature,
    };
    match key.verify(signed_data, &sig) {
        Ok(()) => Es256Verification::Accepted,
        Err(_) => Es256Verification::Rejected,
    }
}

} // verus!
