//! Descriptions of trust sources for the resource server this core runs on.
//!
//! These descriptions, expressed in implementations of the
//! [`ServerSecurityConfig`] trait, typically encode known credentials
//! (effectively raw public keys) or ACE Authorization Servers (AS).

use vstd::prelude::*;

use crate::ace::{
    audience_matches, decode_claims_set, spec_decode_claims, CwtClaimsSet, CwtClaimsView,
    HeaderMap,
};
use crate::cred::{spec_id_cred_names, Credential, CredentialView, IdCred, IdCredView};
use crate::crypto::{
    aes256ccm_decrypt_detached, es256_verify, spec_aes256ccm_plaintext, spec_es256_verification,
    Es256Verification,
};
use crate::error::{CredentialError, NotAllowedRenderingFailed};
use crate::generalclaims::{GeneralClaims, NoClaims, Unlimited};
use crate::message::{MutableWritableMessage, CODE_UNAUTHORIZED};
use crate::scope::{spec_parse_aif, AifValue, UnionScope, UnionScopeView};
use crate::time::TimeConstraint;

verus! {

/// Longest audience identifier (in bytes) a configuration accepts.
pub const MAX_AUD_SIZE: usize = 8;

/// The COSE algorithm identifier of ES256.
pub const ALG_ES256: i32 = -7;

/// The COSE algorithm identifier of AES-CCM-16-128-256.
pub const ALG_AESCCM256: i32 = 31;

/// The tag length (bytes) of the symmetric token algorithm.
pub const SYM_TAG_SIZE: usize = 16;

/// The nonce length (bytes) of the symmetric token algorithm.
pub const SYM_NONCE_SIZE: usize = 13;

/// A single or collection of authorization servers and credentials that a
/// handler trusts.
///
/// Each operation's exact behavior is pinned by a per-implementation spec
/// function (the `*_post` members); the executable methods are verified
/// against them.
pub trait ServerSecurityConfig {
    /// True if the type will at any time need to process tokens.
    ///
    /// Used by the handler to shortcut through some message processing
    /// paths.
    const PARSES_TOKENS: bool;

    /// True if the type will at any time need to process EDHOC requests.
    ///
    /// Used by the handler to shortcut through some message processing
    /// paths.
    const HAS_EDHOC: bool;

    /// The way scopes issued with this system as audience are expressed
    /// here.
    type GeneralClaims: GeneralClaims;

    /// What [`Self::decrypt_symmetric_token`] returns for the given inputs.
    spec fn decrypt_symmetric_token_post(
        &self,
        headers: HeaderMap,
        aad: Seq<u8>,
        ciphertext: Seq<u8>,
        r: Result<(Self::GeneralClaims, CwtClaimsSet), CredentialError>,
    ) -> bool;

    /// What [`Self::verify_asymmetric_token`] returns for the given inputs.
    spec fn verify_asymmetric_token_post(
        &self,
        headers: HeaderMap,
        signed_data: Seq<u8>,
        signature: Seq<u8>,
        signed_payload: Seq<u8>,
        r: Result<(Self::GeneralClaims, CwtClaimsSet), CredentialError>,
    ) -> bool;

    /// What [`Self::own_edhoc_credential`] returns.
    spec fn own_edhoc_credential_post(&self, r: Option<(Credential, [u8; 32])>) -> bool;

    /// What [`Self::expand_id_cred_x`] returns for the given identifier.
    spec fn expand_id_cred_x_post(
        &self,
        id_cred_x: IdCred,
        r: Option<(Credential, Self::GeneralClaims)>,
    ) -> bool;

    /// What [`Self::nosec_authorization`] returns.
    spec fn nosec_authorization_post(&self, r: Option<Self::GeneralClaims>) -> bool;

    /// Whether this backend renders denial responses at all.
    spec fn spec_renders(&self) -> bool;

    /// The payload a rendered denial response carries.
    spec fn spec_hints(&self) -> Seq<u8>;

    /// Unprotects a symmetrically encrypted token in place and processes the
    /// contained claims set into claims.
    ///
    /// The full AAD is built by the caller; the headers are passed in to
    /// select the right key and nonce.
    ///
    /// # Errors
    ///
    /// Produces errors if the input (typically received from the network) is
    /// malformed, unsupported, or does not authenticate.
    fn decrypt_symmetric_token(
        &self,
        headers: &HeaderMap,
        aad: &[u8],
        ciphertext_buffer: &mut Vec<u8>,
    ) -> (r: Result<(Self::GeneralClaims, CwtClaimsSet), CredentialError>)
        ensures
            self.decrypt_symmetric_token_post(*headers, aad@, old(ciphertext_buffer)@, r),
    ;

    /// Verifies the signature on an asymmetrically signed token and
    /// processes the contained claims set into claims.
    ///
    /// `signed_payload` is the payload part of the signed claims; it is only
    /// parsed once the signature over `signed_data` has been verified.
    ///
    /// # Errors
    ///
    /// Produces errors if the input (typically received from the network) is
    /// malformed, unsupported, or does not verify.
    fn verify_asymmetric_token(
        &self,
        headers: &HeaderMap,
        signed_data: &[u8],
        signature: &[u8],
        signed_payload: &[u8],
    ) -> (r: Result<(Self::GeneralClaims, CwtClaimsSet), CredentialError>)
        ensures
            self.verify_asymmetric_token_post(
                *headers,
                signed_data@,
                signature@,
                signed_payload@,
                r,
            ),
    ;

    /// The credential and private key that the server reports and uses in
    /// incoming EDHOC exchanges (in the role of the responder).
    fn own_edhoc_credential(&self) -> (r: Option<(Credential, [u8; 32])>)
        ensures
            self.own_edhoc_credential_post(r),
    ;

    /// Expands an EDHOC `ID_CRED_x` into a full credential along with the
    /// associated authorizations.
    fn expand_id_cred_x(&self, id_cred_x: IdCred) -> (r: Option<
        (Credential, Self::GeneralClaims),
    >)
        ensures
            self.expand_id_cred_x_post(id_cred_x, r),
    ;

    /// The claims granted to unauthenticated requests, if any.
    ///
    /// Their time aspect is typically unbounded.
    fn nosec_authorization(&self) -> (r: Option<Self::GeneralClaims>)
        ensures
            self.nosec_authorization_post(r),
    ;

    /// Renders the "not allowed" message: status Unauthorized, with the
    /// backend's request-creation-hints payload.
    ///
    /// # Errors
    ///
    /// Fails when the backend renders no denial, when the message cannot
    /// represent the Unauthorized code, or when the hints do not fit the
    /// message's size budget.  No error details are conveyed; the caller
    /// produces a generic response.
    fn render_not_allowed<M: MutableWritableMessage>(&self, message: &mut M) -> (r: Result<
        (),
        NotAllowedRenderingFailed,
    >)
        ensures
            r is Ok <==> (self.spec_renders() && M::spec_code_representable(CODE_UNAUTHORIZED)
                && old(message).spec_payload_fits(self.spec_hints().len())),
            r is Ok ==> final(message).spec_code() == Some(CODE_UNAUTHORIZED)
                && final(message).spec_payload() == self.spec_hints(),
    ;
}

/// The default empty configuration that denies all access.
pub struct DenyAll;

impl ServerSecurityConfig for DenyAll {
    const PARSES_TOKENS: bool = false;

    const HAS_EDHOC: bool = false;

    type GeneralClaims = NoClaims;

    open spec fn decrypt_symmetric_token_post(
        &self,
        headers: HeaderMap,
        aad: Seq<u8>,
        ciphertext: Seq<u8>,
        r: Result<(NoClaims, CwtClaimsSet), CredentialError>,
    ) -> bool {
        r matches Err(e) && e == CredentialError::KeyNotPresent
    }

    open spec fn verify_asymmetric_token_post(
        &self,
        headers: HeaderMap,
        signed_data: Seq<u8>,
        signature: Seq<u8>,
        signed_payload: Seq<u8>,
        r: Result<(NoClaims, CwtClaimsSet), CredentialError>,
    ) -> bool {
        r matches Err(e) && e == CredentialError::KeyNotPresent
    }

    open spec fn own_edhoc_credential_post(&self, r: Option<(Credential, [u8; 32])>) -> bool {
        r is None
    }

    open spec fn expand_id_cred_x_post(
        &self,
        id_cred_x: IdCred,
        r: Option<(Credential, NoClaims)>,
    ) -> bool {
        r is None
    }

    open spec fn nosec_authorization_post(&self, r: Option<NoClaims>) -> bool {
        r is None
    }

    open spec fn spec_renders(&self) -> bool {
        false
    }

    open spec fn spec_hints(&self) -> Seq<u8> {
        Seq::empty()
    }

    fn decrypt_symmetric_token(
        &self,
        headers: &HeaderMap,
        aad: &[u8],
        ciphertext_buffer: &mut Vec<u8>,
    ) -> (r: Result<(NoClaims, CwtClaimsSet), CredentialError>) {
        Err(CredentialError::KeyNotPresent)
    }

    fn verify_asymmetric_token(
        &self,
        headers: &HeaderMap,
        signed_data: &[u8],
        signature: &[u8],
        signed_payload: &[u8],
    ) -> (r: Result<(NoClaims, CwtClaimsSet), CredentialError>) {
        Err(CredentialError::KeyNotPresent)
    }

    fn own_edhoc_credential(&self) -> (r: Option<(Credential, [u8; 32])>) {
        None
    }

    fn expand_id_cred_x(&self, id_cred_x: IdCred) -> (r: Option<(Credential, NoClaims)>) {
        None
    }

    fn nosec_authorization(&self) -> (r: Option<NoClaims>) {
        None
    }

    fn render_not_allowed<M: MutableWritableMessage>(&self, message: &mut M) -> (r: Result<
        (),
        NotAllowedRenderingFailed,
    >) {
        Err(NotAllowedRenderingFailed)
    }
}

/// A [`ServerSecurityConfig`] representing unconditionally allowed access
/// without the option for opportunistic EDHOC.
pub struct AllowAll;

impl ServerSecurityConfig for AllowAll {
    const PARSES_TOKENS: bool = false;

    const HAS_EDHOC: bool = false;

    type GeneralClaims = Unlimited<crate::scope::AllowAll>;

    open spec fn decrypt_symmetric_token_post(
        &self,
        headers: HeaderMap,
        aad: Seq<u8>,
        ciphertext: Seq<u8>,
        r: Result<(Unlimited<crate::scope::AllowAll>, CwtClaimsSet), CredentialError>,
    ) -> bool {
        r matches Err(e) && e == CredentialError::KeyNotPresent
    }

    open spec fn verify_asymmetric_token_post(
        &self,
        headers: HeaderMap,
        signed_data: Seq<u8>,
        signature: Seq<u8>,
        signed_payload: Seq<u8>,
        r: Result<(Unlimited<crate::scope::AllowAll>, CwtClaimsSet), CredentialError>,
    ) -> bool {
        r matches Err(e) && e == CredentialError::KeyNotPresent
    }

    open spec fn own_edhoc_credential_post(&self, r: Option<(Credential, [u8; 32])>) -> bool {
        r is None
    }

    open spec fn expand_id_cred_x_post(
        &self,
        id_cred_x: IdCred,
        r: Option<(Credential, Unlimited<crate::scope::AllowAll>)>,
    ) -> bool {
        r is None
    }

    open spec fn nosec_authorization_post(
        &self,
        r: Option<Unlimited<crate::scope::AllowAll>>,
    ) -> bool {
        r == Some(Unlimited(crate::scope::AllowAll))
    }

    open spec fn spec_renders(&self) -> bool {
        false
    }

    open spec fn spec_hints(&self) -> Seq<u8> {
        Seq::empty()
    }

    fn decrypt_symmetric_token(
        &self,
        headers: &HeaderMap,
        aad: &[u8],
        ciphertext_buffer: &mut Vec<u8>,
    ) -> (r: Result<(Unlimited<crate::scope::AllowAll>, CwtClaimsSet), CredentialError>) {
        Err(CredentialError::KeyNotPresent)
    }

    fn verify_asymmetric_token(
        &self,
        headers: &HeaderMap,
        signed_data: &[u8],
        signature: &[u8],
        signed_payload: &[u8],
    ) -> (r: Result<(Unlimited<crate::scope::AllowAll>, CwtClaimsSet), CredentialError>) {
        Err(CredentialError::KeyNotPresent)
    }

    fn own_edhoc_credential(&self) -> (r: Option<(Credential, [u8; 32])>) {
        None
    }

    fn expand_id_cred_x(&self, id_cred_x: IdCred) -> (r: Option<
        (Credential, Unlimited<crate::scope::AllowAll>),
    >) {
        None
    }

    fn nosec_authorization(&self) -> (r: Option<Unlimited<crate::scope::AllowAll>>) {
        Some(Unlimited(crate::scope::AllowAll))
    }

    fn render_not_allowed<M: MutableWritableMessage>(&self, message: &mut M) -> (r: Result<
        (),
        NotAllowedRenderingFailed,
    >) {
        Err(NotAllowedRenderingFailed)
    }
}

/// An implementation of [`GeneralClaims`] for [`ConfigBuilder`]: a scope, a
/// validity window, and a flag for importance.
pub struct ConfigBuilderClaims {
    /// The scope of the claims.
    pub scope: UnionScope,
    /// Time constraints on the claims.
    pub time_constraint: TimeConstraint,
    /// Importance of the security context (see
    /// [`GeneralClaims::is_important`]).
    pub is_important: bool,
}

/// Mathematical model of a [`ConfigBuilderClaims`].
pub ghost struct ConfigBuilderClaimsView {
    /// Model of [`ConfigBuilderClaims::scope`].
    pub scope: UnionScopeView,
    /// Model of [`ConfigBuilderClaims::time_constraint`].
    pub time_constraint: TimeConstraint,
    /// Model of [`ConfigBuilderClaims::is_important`].
    pub is_important: bool,
}

impl View for ConfigBuilderClaims {
    type V = ConfigBuilderClaimsView;

    open spec fn view(&self) -> ConfigBuilderClaimsView {
        ConfigBuilderClaimsView {
            scope: self.scope@,
            time_constraint: self.time_constraint,
            is_important: self.is_important,
        }
    }
}

impl GeneralClaims for ConfigBuilderClaims {
    type Scope = UnionScope;

    open spec fn spec_scope(&self) -> UnionScope {
        self.scope
    }

    open spec fn spec_time_constraint(&self) -> TimeConstraint {
        self.time_constraint
    }

    open spec fn spec_is_important(&self) -> bool {
        self.is_important
    }

    fn scope(&self) -> (r: &UnionScope) {
        &self.scope
    }

    fn time_constraint(&self) -> (r: TimeConstraint) {
        self.time_constraint
    }

    fn is_important(&self) -> (r: bool) {
        self.is_important
    }
}

/// An implementation of [`ServerSecurityConfig`] that can be extended using
/// builder methods.
///
/// Lacking better sources of information, a scope's importance is chosen by
/// source: only preconfigured EDHOC credentials are regarded as important,
/// and are thus kept around even in the presence of multiple competing
/// token-based contexts.
pub struct ConfigBuilder {
    /// Symmetric key used when tokens are encrypted with AES-CCM-16-128-256
    /// (COSE algorithm 31).
    pub as_key_31: Option<[u8; 32]>,
    /// Asymmetric key used when tokens are signed with ES256 (COSE algorithm
    /// -7): the affine coordinates of the verification key, along with the
    /// audience value of this server (signed tokens only make sense when the
    /// same signing key is used with multiple recipients).
    pub as_key_neg7: Option<([u8; 32], [u8; 32], Vec<u8>)>,
    /// The scope granted to unauthenticated callers, if any.
    pub unauthenticated_scope: Option<UnionScope>,
    /// The credential and private key this server presents as EDHOC
    /// responder.
    pub own_edhoc_credential: Option<(Credential, [u8; 32])>,
    /// The one statically known EDHOC client credential, with its granted
    /// scope.
    pub known_edhoc_clients: Option<(Credential, UnionScope)>,
    /// The payload of the "Unauthorized" response.
    pub request_creation_hints: Vec<u8>,
}

impl ConfigBuilder {
    /// True when no builder call has populated any slot.
    pub open spec fn spec_is_empty(&self) -> bool {
        &&& self.as_key_31 is None
        &&& self.as_key_neg7 is None
        &&& self.unauthenticated_scope is None
        &&& self.own_edhoc_credential is None
        &&& self.known_edhoc_clients is None
        &&& self.request_creation_hints@.len() == 0
    }

    /// What token decryption yields for the given configuration and inputs.
    ///
    /// The ciphertext buffer must be long enough for the tag and the nonce
    /// must be exactly the algorithm's; a missing key is reported only for
    /// framings that pass those checks.  The plaintext is decoded as a
    /// claims set, whose scope is parsed as AIF.
    pub open spec fn spec_sym_outcome(
        &self,
        headers: HeaderMap,
        aad: Seq<u8>,
        ciphertext: Seq<u8>,
    ) -> Result<(ConfigBuilderClaimsView, CwtClaimsView), CredentialError> {
        if ciphertext.len() < SYM_TAG_SIZE {
            Err(CredentialError::InconsistentDetails)
        } else {
            match self.as_key_31 {
                None => Err(CredentialError::KeyNotPresent),
                Some(key) => match headers.iv {
                    None => Err(CredentialError::InconsistentDetails),
                    Some(iv) => if iv@.len() != SYM_NONCE_SIZE {
                        Err(CredentialError::InconsistentDetails)
                    } else {
                        match spec_aes256ccm_plaintext(
                            key@,
                            iv@,
                            aad,
                            ciphertext.take(ciphertext.len() - SYM_TAG_SIZE),
                            ciphertext.skip(ciphertext.len() - SYM_TAG_SIZE),
                        ) {
                            None => Err(CredentialError::VerifyFailed),
                            Some(pt) => Self::spec_claims_outcome(pt),
                        }
                    },
                },
            }
        }
    }

    /// What processing a decrypted or signature-verified claims-set encoding
    /// yields: the decoded claims with their parsed scope and derived time
    /// constraint, or a decode failure.
    pub open spec fn spec_claims_outcome(encoded: Seq<u8>) -> Result<
        (ConfigBuilderClaimsView, CwtClaimsView),
        CredentialError,
    > {
        match spec_decode_claims(encoded) {
            None => Err(CredentialError::UnsupportedExtension),
            Some(cwt) => match spec_parse_aif(cwt.scope) {
                None => Err(CredentialError::UnsupportedExtension),
                Some(entries) => Ok(
                    (
                        ConfigBuilderClaimsView {
                            scope: UnionScopeView::Aif(entries),
                            time_constraint: TimeConstraint::spec_from_claims(cwt),
                            is_important: false,
                        },
                        cwt,
                    ),
                ),
            },
        }
    }

    /// What token verification yields for the given configuration and
    /// inputs.
    ///
    /// The header's algorithm must be ES256, before key presence is even
    /// consulted.  The audience is compared only after the signature
    /// verified; a mismatch is a verification failure.
    pub open spec fn spec_asym_outcome(
        &self,
        headers: HeaderMap,
        signed_data: Seq<u8>,
        signature: Seq<u8>,
        signed_payload: Seq<u8>,
    ) -> Result<(ConfigBuilderClaimsView, CwtClaimsView), CredentialError> {
        if headers.alg != Some(ALG_ES256) {
            Err(CredentialError::UnsupportedAlgorithm)
        } else {
            match self.as_key_neg7 {
                None => Err(CredentialError::KeyNotPresent),
                Some((x, y, audience)) => match spec_es256_verification(
                    x@,
                    y@,
                    signed_data,
                    signature,
                ) {
                    Es256Verification::InvalidPoint => Err(CredentialError::InconsistentDetails),
                    Es256Verification::MalformedSignature => Err(
                        CredentialError::InconsistentDetails,
                    ),
                    Es256Verification::Rejected => Err(CredentialError::VerifyFailed),
                    Es256Verification::Accepted => match spec_decode_claims(signed_payload) {
                        None => Err(CredentialError::UnsupportedExtension),
                        Some(cwt) => if cwt.aud != Some(audience@) {
                            Err(CredentialError::VerifyFailed)
                        } else {
                            Self::spec_claims_outcome(signed_payload)
                        },
                    },
                },
            }
        }
    }

    /// What unauthenticated authorization yields: the configured
    /// unauthenticated scope with an unbounded validity window, marked
    /// unimportant.
    pub open spec fn spec_nosec(&self) -> Option<ConfigBuilderClaimsView> {
        match self.unauthenticated_scope {
            Some(s) => Some(
                ConfigBuilderClaimsView {
                    scope: s@,
                    time_constraint: TimeConstraint::spec_unbounded(),
                    is_important: false,
                },
            ),
            None => None,
        }
    }

    /// The unauthenticated fallback of credential expansion: when
    /// unauthenticated access is configured and the identifier carries a CCS
    /// by value, that credential with the unauthenticated claims.
    pub open spec fn spec_expand_fallback(&self, id: IdCredView) -> Option<
        (CredentialView, ConfigBuilderClaimsView),
    > {
        match (self.spec_nosec(), id) {
            (Some(claims), IdCredView::Ccs(v)) => Some(
                (CredentialView { bytes: v, kid: None }, claims),
            ),
            _ => None,
        }
    }

    /// What credential expansion yields: the known client's credential and
    /// scope when the identifier names it (unbounded, important), else the
    /// unauthenticated fallback.
    pub open spec fn spec_expand(&self, id: IdCredView) -> Option<
        (CredentialView, ConfigBuilderClaimsView),
    > {
        match self.known_edhoc_clients {
            Some((cred, scope)) => if spec_id_cred_names(cred@, id) {
                Some(
                    (
                        cred@,
                        ConfigBuilderClaimsView {
                            scope: scope@,
                            time_constraint: TimeConstraint::spec_unbounded(),
                            is_important: true,
                        },
                    ),
                )
            } else {
                self.spec_expand_fallback(id)
            },
            None => self.spec_expand_fallback(id),
        }
    }
}

impl ServerSecurityConfig for ConfigBuilder {
    // Not knowable at build time; assume yes.
    const PARSES_TOKENS: bool = true;

    const HAS_EDHOC: bool = true;

    type GeneralClaims = ConfigBuilderClaims;

    open spec fn decrypt_symmetric_token_post(
        &self,
        headers: HeaderMap,
        aad: Seq<u8>,
        ciphertext: Seq<u8>,
        r: Result<(ConfigBuilderClaims, CwtClaimsSet), CredentialError>,
    ) -> bool {
        match r {
            Ok((claims, cwt)) => self.spec_sym_outcome(headers, aad, ciphertext) == Ok::<
                _,
                CredentialError,
            >((claims@, cwt@)),
            Err(e) => self.spec_sym_outcome(headers, aad, ciphertext) == Err::<
                (ConfigBuilderClaimsView, CwtClaimsView),
                _,
            >(e),
        }
    }

    open spec fn verify_asymmetric_token_post(
        &self,
        headers: HeaderMap,
        signed_data: Seq<u8>,
        signature: Seq<u8>,
        signed_payload: Seq<u8>,
        r: Result<(ConfigBuilderClaims, CwtClaimsSet), CredentialError>,
    ) -> bool {
        match r {
            Ok((claims, cwt)) => self.spec_asym_outcome(headers, signed_data, signature, signed_payload)
                == Ok::<_, CredentialError>((claims@, cwt@)),
            Err(e) => self.spec_asym_outcome(headers, signed_data, signature, signed_payload)
                == Err::<(ConfigBuilderClaimsView, CwtClaimsView), _>(e),
        }
    }

    open spec fn own_edhoc_credential_post(&self, r: Option<(Credential, [u8; 32])>) -> bool {
        match (r, self.own_edhoc_credential) {
            (Some((cred, key)), Some(own)) => cred@ == own.0@ && key == own.1,
            (None, None) => true,
            _ => false,
        }
    }

    open spec fn expand_id_cred_x_post(
        &self,
        id_cred_x: IdCred,
        r: Option<(Credential, ConfigBuilderClaims)>,
    ) -> bool {
        match (r, self.spec_expand(id_cred_x@)) {
            (Some((cred, claims)), Some(expected)) => cred@ == expected.0 && claims@ == expected.1,
            (None, None) => true,
            _ => false,
        }
    }

    open spec fn nosec_authorization_post(&self, r: Option<ConfigBuilderClaims>) -> bool {
        match (r, self.spec_nosec()) {
            (Some(claims), Some(expected)) => claims@ == expected,
            (None, None) => true,
            _ => false,
        }
    }

    open spec fn spec_renders(&self) -> bool {
        true
    }

    open spec fn spec_hints(&self) -> Seq<u8> {
        self.request_creation_hints@
    }

    fn decrypt_symmetric_token(
        &self,
        headers: &HeaderMap,
        aad: &[u8],
        ciphertext_buffer: &mut Vec<u8>,
    ) -> (r: Result<(ConfigBuilderClaims, CwtClaimsSet), CredentialError>) {
        let total = ciphertext_buffer.len();
        if total < SYM_TAG_SIZE {
            return Err(CredentialError::InconsistentDetails);
        }
        let key = match &self.as_key_31 {
            None => {
                return Err(CredentialError::KeyNotPresent);
            },
            Some(k) => k,
        };
        let iv = match &headers.iv {
            None => {
                return Err(CredentialError::InconsistentDetails);
            },
            Some(iv) => iv,
        };
        if iv.len() != SYM_NONCE_SIZE {
            return Err(CredentialError::InconsistentDetails);
        }
        let tag = ciphertext_buffer.split_off(total - SYM_TAG_SIZE);
        let authentic = aes256ccm_decrypt_detached(
            key,
            iv.as_slice(),
            aad,
            ciphertext_buffer,
            tag.as_slice(),
        );
        if !authentic {
            return Err(CredentialError::VerifyFailed);
        }
        let cwt = match decode_claims_set(ciphertext_buffer.as_slice()) {
            None => {
                return Err(CredentialError::UnsupportedExtension);
            },
            Some(c) => c,
        };
        let aif = match AifValue::parse(cwt.scope.as_slice()) {
            None => {
                return Err(CredentialError::UnsupportedExtension);
            },
            Some(v) => v,
        };
        let time_constraint = TimeConstraint::from_claims_set(&cwt);
        Ok(
            (
                ConfigBuilderClaims {
                    scope: UnionScope::Aif(aif),
                    time_constraint,
                    is_important: false,
                },
                cwt,
            ),
        )
    }

    fn verify_asymmetric_token(
        &self,
        headers: &HeaderMap,
        signed_data: &[u8],
        signature: &[u8],
        signed_payload: &[u8],
    ) -> (r: Result<(ConfigBuilderClaims, CwtClaimsSet), CredentialError>) {
        let alg_is_es256 = match headers.alg {
            Some(alg) => alg == ALG_ES256,
            None => false,
        };
        if !alg_is_es256 {
            return Err(CredentialError::UnsupportedAlgorithm);
        }
        let (x, y, audience) = match &self.as_key_neg7 {
            None => {
                return Err(CredentialError::KeyNotPresent);
            },
            Some((x, y, audience)) => (x, y, audience),
        };
        match es256_verify(x, y, signed_data, signature) {
            Es256Verification::InvalidPoint => {
                return Err(CredentialError::InconsistentDetails);
            },
            Es256Verification::MalformedSignature => {
                return Err(CredentialError::InconsistentDetails);
            },
            Es256Verification::Rejected => {
                return Err(CredentialError::VerifyFailed);
            },
            Es256Verification::Accepted => {},
        }
        let cwt = match decode_claims_set(signed_payload) {
            None => {
                return Err(CredentialError::UnsupportedExtension);
            },
            Some(c) => c,
        };
        if !audience_matches(&cwt, audience.as_slice()) {
            return Err(CredentialError::VerifyFailed);
        }
        let aif = match AifValue::parse(cwt.scope.as_slice()) {
            None => {
                return Err(CredentialError::UnsupportedExtension);
            },
            Some(v) => v,
        };
        let time_constraint = TimeConstraint::from_claims_set(&cwt);
        Ok(
            (
                ConfigBuilderClaims {
                    scope: UnionScope::Aif(aif),
                    time_constraint,
                    is_important: false,
                },
                cwt,
            ),
        )
    }

    fn own_edhoc_credential(&self) -> (r: Option<(Credential, [u8; 32])>) {
        match &self.own_edhoc_credential {
            Some((cred, key)) => Some((cred.duplicate(), *key)),
            None => None,
        }
    }

    fn expand_id_cred_x(&self, id_cred_x: IdCred) -> (r: Option<
        (Credential, ConfigBuilderClaims),
    >) {
        match &self.known_edhoc_clients {
            Some((credential, scope)) => {
                if id_cred_x.names(credential) {
                    return Some(
                        (
                            credential.duplicate(),
                            ConfigBuilderClaims {
                                scope: scope.duplicate(),
                                time_constraint: TimeConstraint::unbounded(),
                                is_important: true,
                            },
                        ),
                    );
                }
            },
            None => {},
        }
        let unauthorized_claims = match self.nosec_authorization() {
            Some(claims) => claims,
            None => {
                return None;
            },
        };
        match id_cred_x.get_ccs() {
            Some(credential_by_value) => Some((credential_by_value, unauthorized_claims)),
            None => None,
        }
    }

    fn nosec_authorization(&self) -> (r: Option<ConfigBuilderClaims>) {
        match &self.unauthenticated_scope {
            Some(s) => Some(
                ConfigBuilderClaims {
                    scope: s.duplicate(),
                    time_constraint: TimeConstraint::unbounded(),
                    is_important: false,
                },
            ),
            None => None,
        }
    }

    fn render_not_allowed<M: MutableWritableMessage>(&self, message: &mut M) -> (r: Result<
        (),
        NotAllowedRenderingFailed,
    >) {
        match message.set_code(CODE_UNAUTHORIZED) {
            Ok(()) => {},
            Err(()) => {
                return Err(NotAllowedRenderingFailed);
            },
        }
        match message.set_payload(self.request_creation_hints.as_slice()) {
            Ok(()) => {},
            Err(()) => {
                return Err(NotAllowedRenderingFailed);
            },
        }
        Ok(())
    }
}

impl Default for ConfigBuilder {
    /// The empty configuration, as from [`ConfigBuilder::new`].
    fn default() -> (r: Self)
        ensures
            r.spec_is_empty(),
    {
        ConfigBuilder::new()
    }
}

impl ConfigBuilder {
    /// Creates an empty server security configuration.
    ///
    /// Without any additional building steps, this is equivalent to
    /// [`DenyAll`].
    pub fn new() -> (r: Self)
        ensures
            r.spec_is_empty(),
    {
        ConfigBuilder {
            as_key_31: None,
            as_key_neg7: None,
            unauthenticated_scope: None,
            known_edhoc_clients: None,
            own_edhoc_credential: None,
            request_creation_hints: Vec::new(),
        }
    }

    /// Sets a single Authorization Server recognized by a shared
    /// AES-CCM-16-128-256 (COSE algorithm 31) key.
    ///
    /// Scopes are accepted as given by the AS using the AIF REST model.
    ///
    /// This configuration supports a single such AS, which can be configured
    /// only once.
    pub fn with_aif_symmetric_as_aesccm256(self, key: [u8; 32]) -> (r: Self)
        requires
            self.as_key_31 is None,
        ensures
            r.as_key_31 == Some(key),
            r.as_key_neg7 == self.as_key_neg7,
            r.unauthenticated_scope == self.unauthenticated_scope,
            r.own_edhoc_credential == self.own_edhoc_credential,
            r.known_edhoc_clients == self.known_edhoc_clients,
            r.request_creation_hints == self.request_creation_hints,
    {
        Self { as_key_31: Some(key), ..self }
    }

    /// Sets a single Authorization Server recognized by its ES256 (COSE
    /// algorithm -7) signing key.
    ///
    /// An audience identifier is taken along with the key; signed tokens are
    /// only accepted if they have that audience.
    ///
    /// This configuration supports a single such AS, which can be configured
    /// only once.
    pub fn with_aif_asymmetric_es256(self, x: [u8; 32], y: [u8; 32], audience: Vec<u8>) -> (r:
        Self)
        requires
            self.as_key_neg7 is None,
            audience@.len() <= MAX_AUD_SIZE,
        ensures
            r.as_key_neg7 == Some((x, y, audience)),
            r.as_key_31 == self.as_key_31,
            r.unauthenticated_scope == self.unauthenticated_scope,
            r.own_edhoc_credential == self.own_edhoc_credential,
            r.known_edhoc_clients == self.known_edhoc_clients,
            r.request_creation_hints == self.request_creation_hints,
    {
        Self { as_key_neg7: Some((x, y, audience)), ..self }
    }

    /// Allows use of the server within the limits of the given scope by
    /// EDHOC clients provided they present the given credential.
    ///
    /// Unlike many ACE tokens, this credential is accepted without any
    /// limitation on time.
    ///
    /// This configuration supports a single such credential, which can be
    /// configured only once.
    pub fn with_known_edhoc_credential(self, credential: Credential, scope: UnionScope) -> (r:
        Self)
        requires
            self.known_edhoc_clients is None,
        ensures
            r.known_edhoc_clients == Some((credential, scope)),
            r.as_key_31 == self.as_key_31,
            r.as_key_neg7 == self.as_key_neg7,
            r.unauthenticated_scope == self.unauthenticated_scope,
            r.own_edhoc_credential == self.own_edhoc_credential,
            r.request_creation_hints == self.request_creation_hints,
    {
        Self { known_edhoc_clients: Some((credential, scope)), ..self }
    }

    /// Configures an EDHOC credential and private key to be presented by
    /// this server.
    ///
    /// An own credential can be configured only once.
    pub fn with_own_edhoc_credential(self, credential: Credential, key: [u8; 32]) -> (r: Self)
        requires
            self.own_edhoc_credential is None,
        ensures
            r.own_edhoc_credential == Some((credential, key)),
            r.as_key_31 == self.as_key_31,
            r.as_key_neg7 == self.as_key_neg7,
            r.unauthenticated_scope == self.unauthenticated_scope,
            r.known_edhoc_clients == self.known_edhoc_clients,
            r.request_creation_hints == self.request_creation_hints,
    {
        Self { own_edhoc_credential: Some((credential, key)), ..self }
    }

    /// Allows use of the server by unauthenticated clients using the given
    /// scope.
    ///
    /// An unauthenticated scope can be configured only once.
    pub fn allow_unauthenticated(self, scope: UnionScope) -> (r: Self)
        requires
            self.unauthenticated_scope is None,
        ensures
            r.unauthenticated_scope == Some(scope),
            r.as_key_31 == self.as_key_31,
            r.as_key_neg7 == self.as_key_neg7,
            r.own_edhoc_credential == self.own_edhoc_credential,
            r.known_edhoc_clients == self.known_edhoc_clients,
            r.request_creation_hints == self.request_creation_hints,
    {
        Self { unauthenticated_scope: Some(scope), ..self }
    }

    /// Sets the payload of the "Unauthorized" response.
    ///
    /// The hints can be configured only once.
    pub fn with_request_creation_hints(self, request_creation_hints: Vec<u8>) -> (r: Self)
        requires
            self.request_creation_hints@.len() == 0,
        ensures
            r.request_creation_hints == request_creation_hints,
            r.as_key_31 == self.as_key_31,
            r.as_key_neg7 == self.as_key_neg7,
            r.unauthenticated_scope == self.unauthenticated_scope,
            r.own_edhoc_credential == self.own_edhoc_credential,
            r.known_edhoc_clients == self.known_edhoc_clients,
    {
        Self { request_creation_hints, ..self }
    }
}

/// A ciphertext buffer shorter than the algorithm's tag is always rejected
/// as inconsistent, regardless of key configuration.
pub proof fn lemma_short_ciphertext_rejected(
    cfg: ConfigBuilder,
    headers: HeaderMap,
    aad: Seq<u8>,
    ciphertext: Seq<u8>,
)
    requires
        ciphertext.len() < SYM_TAG_SIZE,
    ensures
        cfg.spec_sym_outcome(headers, aad, ciphertext) == Err::<
            (ConfigBuilderClaimsView, CwtClaimsView),
            CredentialError,
        >(CredentialError::InconsistentDetails),
{
}

/// A token whose headers name an algorithm other than ES256 is always
/// rejected as unsupported, even when no asymmetric key is configured.
pub proof fn lemma_foreign_algorithm_rejected(
    cfg: ConfigBuilder,
    headers: HeaderMap,
    signed_data: Seq<u8>,
    signature: Seq<u8>,
    signed_payload: Seq<u8>,
)
    requires
        headers.alg != Some(ALG_ES256),
    ensures
        cfg.spec_asym_outcome(headers, signed_data, signature, signed_payload) == Err::<
            (ConfigBuilderClaimsView, CwtClaimsView),
            CredentialError,
        >(CredentialError::UnsupportedAlgorithm),
{
}

/// A validly signed token whose claimed audience differs from the
/// configured audience is rejected as a verification failure; it never
/// succeeds.
pub proof fn lemma_audience_mismatch_rejected(
    cfg: ConfigBuilder,
    headers: HeaderMap,
    signed_data: Seq<u8>,
    signature: Seq<u8>,
    signed_payload: Seq<u8>,
    x: [u8; 32],
    y: [u8; 32],
    audience: Vec<u8>,
)
    requires
        cfg.as_key_neg7 == Some((x, y, audience)),
        headers.alg == Some(ALG_ES256),
        spec_es256_verification(x@, y@, signed_data, signature) == Es256Verification::Accepted,
        spec_decode_claims(signed_payload) matches Some(cwt) && cwt.aud != Some(audience@),
    ensures
        cfg.spec_asym_outcome(headers, signed_data, signature, signed_payload) == Err::<
            (ConfigBuilderClaimsView, CwtClaimsView),
            CredentialError,
        >(CredentialError::VerifyFailed),
{
}

/// A token is only ever accepted with the configured audience: acceptance
/// implies an asymmetric key is configured and the decoded claims name its
/// audience exactly.
pub proof fn lemma_accepted_token_names_configured_audience(
    cfg: ConfigBuilder,
    headers: HeaderMap,
    signed_data: Seq<u8>,
    signature: Seq<u8>,
    signed_payload: Seq<u8>,
)
    requires
        cfg.spec_asym_outcome(headers, signed_data, signature, signed_payload) is Ok,
    ensures
        cfg.as_key_neg7 matches Some(anchor) && spec_decode_claims(signed_payload) matches Some(
            cwt,
        ) && cwt.aud == Some(anchor.2@),
{
}

/// A reference-only identifier resolves to the known client exactly by
/// key-identifier equality; failing that it finds no credential, since a
/// reference carries no value to fall back to.
pub proof fn lemma_expand_reference_only_by_kid(
    cfg: ConfigBuilder,
    kid: Seq<u8>,
    cred: Credential,
    scope: UnionScope,
)
    requires
        cfg.known_edhoc_clients == Some((cred, scope)),
    ensures
        cred@.kid == Some(kid) ==> (cfg.spec_expand(IdCredView::Kid(kid)) matches Some(found)
            && found.0 == cred@ && found.1.scope == scope@ && found.1.is_important
            && found.1.time_constraint == TimeConstraint::spec_unbounded()),
        cred@.kid != Some(kid) ==> cfg.spec_expand(IdCredView::Kid(kid)) is None,
{
}

/// A value identifier resolves to the known client exactly by full-value
/// equality; a non-matching CCS value falls back to unauthenticated claims
/// exactly when unauthenticated access is configured.
pub proof fn lemma_expand_value_by_full_value(
    cfg: ConfigBuilder,
    v: Seq<u8>,
    cred: Credential,
    scope: UnionScope,
)
    requires
        cfg.known_edhoc_clients == Some((cred, scope)),
    ensures
        cred@.bytes == v ==> (cfg.spec_expand(IdCredView::Ccs(v)) matches Some(found) && found.0
            == cred@ && found.1.scope == scope@ && found.1.is_important),
        cred@.bytes != v && cfg.unauthenticated_scope is None ==> cfg.spec_expand(
            IdCredView::Ccs(v),
        ) is None,
        (cred@.bytes != v && cfg.unauthenticated_scope is Some) ==> (cfg.spec_expand(
            IdCredView::Ccs(v),
        ) matches Some(found) && found.0.bytes == v && found.0.kid is None && found.1.scope == (
        cfg.unauthenticated_scope->0)@ && !found.1.is_important),
{
}

/// A value identifier that is not a CCS names no known CCS credential and
/// offers nothing to fall back to: expansion finds no credential.
pub proof fn lemma_expand_other_value_finds_nothing(cfg: ConfigBuilder, v: Seq<u8>)
    ensures
        cfg.spec_expand(IdCredView::OtherValue(v)) is None,
{
}

/// A freshly constructed configuration with no builder calls behaves
/// identically to [`DenyAll`]: every token and credential operation returns
/// a denial, while denial rendering still stands, with an empty hints
/// payload.
pub proof fn lemma_fresh_config_denies(
    cfg: ConfigBuilder,
    headers: HeaderMap,
    aad: Seq<u8>,
    ciphertext: Seq<u8>,
    signed_data: Seq<u8>,
    signature: Seq<u8>,
    signed_payload: Seq<u8>,
    id: IdCredView,
)
    requires
        cfg.spec_is_empty(),
    ensures
        cfg.spec_sym_outcome(headers, aad, ciphertext) is Err,
        cfg.spec_asym_outcome(headers, signed_data, signature, signed_payload) is Err,
        cfg.spec_nosec() is None,
        cfg.spec_expand(id) is None,
        cfg.own_edhoc_credential is None,
        cfg.spec_renders(),
        cfg.spec_hints().len() == 0,
{
}

/// Token-derived claims are never marked important, whichever way the token
/// was protected: only preconfigured EDHOC credentials yield important
/// claims.
pub proof fn lemma_token_claims_never_important(
    cfg: ConfigBuilder,
    headers: HeaderMap,
    aad: Seq<u8>,
    ciphertext: Seq<u8>,
    signed_data: Seq<u8>,
    signature: Seq<u8>,
    signed_payload: Seq<u8>,
)
    ensures
        cfg.spec_sym_outcome(headers, aad, ciphertext) matches Ok(granted)
            ==> !granted.0.is_important,
        cfg.spec_asym_outcome(headers, signed_data, signature, signed_payload) matches Ok(granted)
            ==> !granted.0.is_important,
{
}

/// The allow-all policy's unauthenticated authorization always grants
/// claims, whatever else holds; their scope is the never-restricting
/// [`crate::scope::AllowAll`].
pub proof fn lemma_allow_all_always_grants(
    policy: AllowAll,
    r: Option<Unlimited<crate::scope::AllowAll>>,
)
    requires
        policy.nosec_authorization_post(r),
    ensures
        r == Some(Unlimited(crate::scope::AllowAll)),
{
}

} // verus!
