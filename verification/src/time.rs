//! Validity windows derived from a token's time claims.

use vstd::prelude::*;

use crate::ace::{CwtClaimsSet, CwtClaimsView};

verus! {

/// A validity window bounding when granted access applies.
///
/// An absent bound leaves that side of the window open; a constraint with
/// both sides absent is unbounded.
#[derive(Clone, Copy, PartialEq, Eq, Structural, Debug)]
pub struct TimeConstraint {
    /// Seconds since the epoch before which the access does not yet apply.
    pub not_before: Option<u64>,
    /// Seconds since the epoch at and after which the access no longer
    /// applies.
    pub not_after: Option<u64>,
}

impl TimeConstraint {
    /// The constraint a constraint derived from the given claims carries.
    pub open spec fn spec_from_claims(claims: CwtClaimsView) -> TimeConstraint {
        TimeConstraint { not_before: claims.nbf, not_after: claims.exp }
    }

    /// The constraint that does not restrict time at all.
    pub open spec fn spec_unbounded() -> TimeConstraint {
        TimeConstraint { not_before: None, not_after: None }
    }

    /// Derives the validity window from a claims set's time claims.
    pub fn from_claims_set(claims: &CwtClaimsSet) -> (r: TimeConstraint)
        ensures
            r == TimeConstraint::spec_from_claims(claims@),
    {
        TimeConstraint { not_before: claims.nbf, not_after: claims.exp }
    }

    /// The constraint that does not restrict time at all.
    pub fn unbounded() -> (r: TimeConstraint)
        ensures
            r == TimeConstraint::spec_unbounded(),
    {
        TimeConstraint { not_before: None, not_after: None }
    }
}

} // verus!
