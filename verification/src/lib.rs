//! Trust and authorization core for a CoAP resource server.
//!
//! The crate decides, per incoming request, whether the requester is trusted,
//! under which access scope, and for how long.  It validates bearer tokens
//! (symmetrically encrypted or asymmetrically signed) and matches EDHOC peer
//! credentials against statically configured trust anchors.
//!
//! The central abstraction is the [`seccfg::ServerSecurityConfig`] trait; the
//! backends are [`seccfg::DenyAll`], [`seccfg::AllowAll`] and the
//! builder-assembled [`seccfg::ConfigBuilder`].

pub mod ace;
pub mod bench;
pub mod cbor;
pub mod cred;
pub mod crypto;
pub mod error;
pub mod generalclaims;
pub mod message;
pub mod native;
pub mod scope;
pub mod seccfg;
pub mod time;
