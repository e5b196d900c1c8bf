//! EDHOC credentials and the identifiers peers present for them.
//!
//! A peer opens an EDHOC exchange by naming its credential either by
//! reference (a key identifier) or by value (a self-contained credential,
//! here a CCS).  The policies match such identifiers against configured
//! credentials: reference identifiers only by key-identifier equality, value
//! identifiers only by full-value equality.

use vstd::prelude::*;

use crate::cbor::{bytes_eq, clone_bytes};

verus! {

/// A full EDHOC credential as this core handles it: its value bytes (a CCS)
/// and, if it has one, its key identifier.
pub struct Credential {
    /// The credential's value bytes.
    pub bytes: Vec<u8>,
    /// The credential's key identifier, if it carries one.
    pub kid: Option<Vec<u8>>,
}

/// Mathematical model of a [`Credential`].
pub ghost struct CredentialView {
    /// Model of [`Credential::bytes`].
    pub bytes: Seq<u8>,
    /// Model of [`Credential::kid`].
    pub kid: Option<Seq<u8>>,
}

impl View for Credential {
    type V = CredentialView;

    open spec fn view(&self) -> CredentialView {
        CredentialView {
            bytes: self.bytes@,
            kid: match self.kid {
                Some(k) => Some(k@),
                None => None,
            },
        }
    }
}

impl Credential {
    /// An owned copy of this credential.
    pub fn duplicate(&self) -> (r: Credential)
        ensures
            r@ == self@,
    {
        Credential {
            bytes: clone_bytes(self.bytes.as_slice()),
            kid: match &self.kid {
                Some(k) => Some(clone_bytes(k.as_slice())),
                None => None,
            },
        }
    }
}

/// A peer-supplied EDHOC credential identifier (`ID_CRED_x`).
pub enum IdCred {
    /// The credential is named by reference: only its key identifier is
    /// given.
    Kid(Vec<u8>),
    /// The credential is carried by value as a CCS; the bytes are the
    /// credential's value.
    Ccs(Vec<u8>),
    /// The credential is carried by value in a shape other than a CCS.
    OtherValue(Vec<u8>),
}

/// Mathematical model of an [`IdCred`].
pub ghost enum IdCredView {
    /// Model of [`IdCred::Kid`].
    Kid(Seq<u8>),
    /// Model of [`IdCred::Ccs`].
    Ccs(Seq<u8>),
    /// Model of [`IdCred::OtherValue`].
    OtherValue(Seq<u8>),
}

impl View for IdCred {
    type V = IdCredView;

    open spec fn view(&self) -> IdCredView {
        match self {
            IdCred::Kid(k) => IdCredView::Kid(k@),
            IdCred::Ccs(v) => IdCredView::Ccs(v@),
            IdCred::OtherValue(v) => IdCredView::OtherValue(v@),
        }
    }
}

/// True when the identifier names the credential: a reference identifier
/// exactly when the credential carries that key identifier, a CCS value
/// identifier exactly when it equals the credential's value; a non-CCS value
/// never names a CCS credential.
pub open spec fn spec_id_cred_names(cred: CredentialView, id: IdCredView) -> bool {
    match id {
        IdCredView::Kid(k) => cred.kid == Some(k),
        IdCredView::Ccs(v) => cred.bytes == v,
        IdCredView::OtherValue(_) => false,
    }
}

impl IdCred {
    /// True when the identifier is reference-only.
    pub fn reference_only(&self) -> (r: bool)
        ensures
            r == (self@ is Kid),
    {
        match self {
            IdCred::Kid(_) => true,
            _ => false,
        }
    }

    /// The self-contained credential carried by a CCS value identifier, if
    /// the identifier is of that shape.
    pub fn get_ccs(&self) -> (r: Option<Credential>)
        ensures
            match r {
                Some(c) => self@ matches IdCredView::Ccs(v) && c@.bytes == v && c@.kid is None,
                None => !(self@ is Ccs),
            },
    {
        match self {
            IdCred::Ccs(v) => Some(
                Credential { bytes: clone_bytes(v.as_slice()), kid: None },
            ),
            _ => None,
        }
    }

    /// True when this identifier names the given credential.
    pub fn names(&self, cred: &Credential) -> (r: bool)
        ensures
            r == spec_id_cred_names(cred@, self@),
    {
        match self {
            IdCred::Kid(k) => match &cred.kid {
                Some(ck) => bytes_eq(ck.as_slice(), k.as_slice()),
                None => false,
            },
            IdCred::Ccs(v) => bytes_eq(cred.bytes.as_slice(), v.as_slice()),
            IdCred::OtherValue(_) => false,
        }
    }
}

} // verus!
