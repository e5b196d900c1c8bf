//! Tests of the policy backends: deny-all, allow-all, and the configurable
//! policy's credential resolution, unauthenticated access and denial
//! rendering.

use coapcore::ace::HeaderMap;
use coapcore::cred::{Credential, IdCred};
use coapcore::error::CredentialError;
use coapcore::generalclaims::GeneralClaims;
use coapcore::message::SimpleMessage;
use coapcore::scope::{AifValue, UnionScope};
use coapcore::seccfg::{AllowAll, ConfigBuilder, DenyAll, ServerSecurityConfig};

fn led_scope() -> UnionScope {
    let bytes = [0x81, 0x82, 0x64, 0x2f, 0x6c, 0x65, 0x64, 0x05];
    UnionScope::from_aif(AifValue::parse(&bytes).unwrap())
}

fn known_credential() -> Credential {
    Credential { bytes: vec![1, 2, 3], kid: Some(vec![42]) }
}

#[test]
fn deny_all_denies_everything() {
    let policy = DenyAll;
    let mut buffer = vec![0u8; 32];
    let headers = HeaderMap { alg: Some(31), iv: Some(vec![0u8; 13]) };
    let r = policy.decrypt_symmetric_token(&headers, b"", &mut buffer);
    assert_eq!(r.err(), Some(CredentialError::KeyNotPresent));
    let headers = HeaderMap { alg: Some(-7), iv: None };
    let r = policy.verify_asymmetric_token(&headers, b"d", b"s", b"p");
    assert_eq!(r.err(), Some(CredentialError::KeyNotPresent));
    assert!(policy.own_edhoc_credential().is_none());
    assert!(policy.expand_id_cred_x(IdCred::Kid(vec![42])).is_none());
    assert!(policy.nosec_authorization().is_none());
    let mut message = SimpleMessage::new(64);
    assert!(policy.render_not_allowed(&mut message).is_err());
}

#[test]
fn fresh_config_behaves_like_deny_all() {
    let cfg = ConfigBuilder::new();
    let mut buffer = vec![0u8; 32];
    let headers = HeaderMap { alg: Some(31), iv: Some(vec![0u8; 13]) };
    assert!(cfg.decrypt_symmetric_token(&headers, b"", &mut buffer).is_err());
    let headers = HeaderMap { alg: Some(-7), iv: None };
    assert!(cfg.verify_asymmetric_token(&headers, b"d", b"s", b"p").is_err());
    assert!(cfg.own_edhoc_credential().is_none());
    assert!(cfg.expand_id_cred_x(IdCred::Kid(vec![42])).is_none());
    assert!(cfg.expand_id_cred_x(IdCred::Ccs(vec![1, 2, 3])).is_none());
    assert!(cfg.nosec_authorization().is_none());
    // Denial rendering still succeeds, with an empty hints payload.
    let mut message = SimpleMessage::new(0);
    assert!(cfg.render_not_allowed(&mut message).is_ok());
    assert_eq!(message.code, Some(129));
    assert!(message.payload.is_empty());
}

#[test]
fn default_config_is_empty_too() {
    let cfg = ConfigBuilder::default();
    assert!(cfg.nosec_authorization().is_none());
    assert!(cfg.own_edhoc_credential().is_none());
}

#[test]
fn allow_all_nosec_authorization_always_grants() {
    let policy = AllowAll;
    let claims = policy.nosec_authorization().expect("allow-all always grants claims");
    // The granted scope never restricts access.
    assert!(claims.scope().allows(b"/anything", 0xffff_ffff_ffff_ffff));
    assert!(claims.scope().allows(b"", 0));
    assert!(!claims.is_important());
    let tc = claims.time_constraint();
    assert!(tc.not_before.is_none());
    assert!(tc.not_after.is_none());
}

#[test]
fn allow_all_does_not_parse_tokens() {
    let policy = AllowAll;
    let headers = HeaderMap { alg: Some(31), iv: Some(vec![0u8; 13]) };
    let mut buffer = vec![0u8; 32];
    let r = policy.decrypt_symmetric_token(&headers, b"", &mut buffer);
    assert_eq!(r.err(), Some(CredentialError::KeyNotPresent));
    let mut message = SimpleMessage::new(64);
    assert!(policy.render_not_allowed(&mut message).is_err());
}

#[test]
fn capability_flags_match_backends() {
    assert!(!DenyAll::PARSES_TOKENS);
    assert!(!DenyAll::HAS_EDHOC);
    assert!(!AllowAll::PARSES_TOKENS);
    assert!(!AllowAll::HAS_EDHOC);
    assert!(ConfigBuilder::PARSES_TOKENS);
    assert!(ConfigBuilder::HAS_EDHOC);
}

#[test]
fn expand_matches_reference_by_kid() {
    let cfg = ConfigBuilder::new().with_known_edhoc_credential(known_credential(), led_scope());
    let (cred, claims) = cfg
        .expand_id_cred_x(IdCred::Kid(vec![42]))
        .expect("matching key identifier resolves");
    assert_eq!(cred.bytes, vec![1, 2, 3]);
    assert!(claims.is_important);
    assert!(claims.time_constraint.not_after.is_none());
    match &claims.scope {
        UnionScope::Aif(v) => assert_eq!(v.entries.len(), 1),
        _ => panic!("granted scope should be the configured one"),
    }
}

#[test]
fn expand_rejects_wrong_kid() {
    let cfg = ConfigBuilder::new().with_known_edhoc_credential(known_credential(), led_scope());
    assert!(cfg.expand_id_cred_x(IdCred::Kid(vec![7])).is_none());
}

#[test]
fn expand_reference_never_matches_credential_without_kid() {
    let credential = Credential { bytes: vec![1, 2, 3], kid: None };
    let cfg = ConfigBuilder::new().with_known_edhoc_credential(credential, led_scope());
    assert!(cfg.expand_id_cred_x(IdCred::Kid(vec![42])).is_none());
}

#[test]
fn expand_matches_value_by_full_value() {
    let cfg = ConfigBuilder::new().with_known_edhoc_credential(known_credential(), led_scope());
    let (cred, claims) = cfg
        .expand_id_cred_x(IdCred::Ccs(vec![1, 2, 3]))
        .expect("matching credential value resolves");
    assert_eq!(cred.bytes, vec![1, 2, 3]);
    assert!(claims.is_important);
}

#[test]
fn expand_rejects_wrong_value() {
    let cfg = ConfigBuilder::new().with_known_edhoc_credential(known_credential(), led_scope());
    assert!(cfg.expand_id_cred_x(IdCred::Ccs(vec![9, 9])).is_none());
}

#[test]
fn expand_non_ccs_value_never_matches() {
    // Full-value matching is over the CCS form: another value shape does not
    // match even when its bytes equal the credential's, and it offers no CCS
    // to fall back to.
    let cfg = ConfigBuilder::new()
        .with_known_edhoc_credential(known_credential(), led_scope())
        .allow_unauthenticated(UnionScope::unrestricted());
    assert!(cfg.expand_id_cred_x(IdCred::OtherValue(vec![1, 2, 3])).is_none());
}

#[test]
fn expand_falls_back_to_unauthenticated_for_ccs() {
    let cfg = ConfigBuilder::new()
        .with_known_edhoc_credential(known_credential(), led_scope())
        .allow_unauthenticated(UnionScope::unrestricted());
    let (cred, claims) = cfg
        .expand_id_cred_x(IdCred::Ccs(vec![9, 9]))
        .expect("a CCS by value is usable for unauthenticated access");
    assert_eq!(cred.bytes, vec![9, 9]);
    assert!(cred.kid.is_none());
    assert!(!claims.is_important);
    assert!(matches!(claims.scope, UnionScope::AllowAll));
}

#[test]
fn expand_falls_back_without_known_client() {
    let cfg = ConfigBuilder::new().allow_unauthenticated(led_scope());
    let (cred, claims) = cfg
        .expand_id_cred_x(IdCred::Ccs(vec![5, 5]))
        .expect("fallback applies also when no known client is configured");
    assert_eq!(cred.bytes, vec![5, 5]);
    assert!(!claims.is_important);
}

#[test]
fn expand_kid_has_no_unauthenticated_fallback() {
    let cfg = ConfigBuilder::new().allow_unauthenticated(UnionScope::unrestricted());
    assert!(cfg.expand_id_cred_x(IdCred::Kid(vec![42])).is_none());
}

#[test]
fn nosec_authorization_grants_configured_scope() {
    let cfg = ConfigBuilder::new().allow_unauthenticated(led_scope());
    let claims = cfg.nosec_authorization().expect("unauthenticated scope is configured");
    assert!(!claims.is_important);
    assert!(claims.time_constraint.not_before.is_none());
    assert!(claims.time_constraint.not_after.is_none());
    match &claims.scope {
        UnionScope::Aif(v) => {
            assert_eq!(v.entries.len(), 1);
            assert_eq!(v.entries[0].path, b"/led".to_vec());
        },
        _ => panic!("granted scope should be the configured one"),
    }
}

#[test]
fn own_edhoc_credential_returns_configured_pair() {
    let credential = Credential { bytes: vec![4, 4, 4], kid: Some(vec![1]) };
    let cfg = ConfigBuilder::new().with_own_edhoc_credential(credential, [0xab; 32]);
    let (cred, key) = cfg.own_edhoc_credential().expect("own credential is configured");
    assert_eq!(cred.bytes, vec![4, 4, 4]);
    assert_eq!(cred.kid, Some(vec![1]));
    assert_eq!(key, [0xab; 32]);
}

#[test]
fn render_not_allowed_writes_hints() {
    let cfg = ConfigBuilder::new().with_request_creation_hints(vec![0xa0, 0x01, 0x02]);
    let mut message = SimpleMessage::new(16);
    cfg.render_not_allowed(&mut message).expect("hints fit the budget");
    assert_eq!(message.code, Some(129));
    assert_eq!(message.payload, vec![0xa0, 0x01, 0x02]);
}

#[test]
fn render_not_allowed_fails_when_hints_do_not_fit() {
    let cfg = ConfigBuilder::new().with_request_creation_hints(vec![0u8; 10]);
    let mut message = SimpleMessage::new(4);
    assert!(cfg.render_not_allowed(&mut message).is_err());
}

#[test]
fn union_scope_allow_all_allows_everything() {
    let scope = UnionScope::unrestricted();
    assert!(scope.allows(b"/led", 5));
    assert!(scope.allows(b"", 0));
    assert!(scope.allows(b"/anything/else", u64::MAX));
}

#[test]
fn bench_error_message() {
    let e = coapcore::bench::Error::SystemTimerWrapped;
    assert_eq!(e.message(), "system timer wrapped");
    assert_eq!(e, coapcore::bench::Error::SystemTimerWrapped);
}

#[test]
fn native_init_yields_peripherals() {
    let _peripherals: coapcore::native::OptionalPeripherals = coapcore::native::init();
    let _swi = coapcore::native::SWI {};
}
