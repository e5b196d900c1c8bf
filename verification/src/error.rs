//! Error values surfaced while processing credentials and tokens.

use vstd::prelude::*;

verus! {

/// Why processing a presented credential or token failed.
///
/// All of these are folded into a generic denial by the caller; the precise
/// variant is for local diagnosis only and is never put on the wire.
#[derive(Clone, Copy, PartialEq, Eq, Structural, Debug)]
pub enum CredentialError {
    /// No trust anchor is configured for the presented mechanism.
    KeyNotPresent,
    /// The nonce, ciphertext or key point framing is malformed.
    InconsistentDetails,
    /// The cryptographic proof failed (including an audience mismatch).
    VerifyFailed,
    /// The algorithm identifier in the token's headers is not recognized.
    UnsupportedAlgorithm,
    /// The claims set or its scope could not be decoded.
    UnsupportedExtension,
}

/// Error type of [`crate::seccfg::ServerSecurityConfig::render_not_allowed`].
///
/// This represents a failure to express the denial response in a message.
/// Unlike most rendering errors, this can not fall back to an Internal Server
/// Error response, as that would be misunderstood by the client to mean that
/// the requested operation was attempted and failed (whereas here it was not
/// performed at all).  Therefore no error details are communicated.
#[derive(Debug)]
pub struct NotAllowedRenderingFailed;

} // verus!
