//! The capability contract claims of an authenticated principal satisfy:
//! a scope, a time constraint, and an importance flag.

use vstd::prelude::*;

use crate::time::TimeConstraint;

verus! {

/// What a backend's claims type must offer: the scope granted to the
/// principal, the validity window, and whether the security context is
/// important enough to survive eviction under resource pressure.
pub trait GeneralClaims: Sized {
    /// The backend's scope representation.
    type Scope;

    /// The scope value the claims carry.
    spec fn spec_scope(&self) -> Self::Scope;

    /// The validity window the claims carry.
    spec fn spec_time_constraint(&self) -> TimeConstraint;

    /// Whether the claims mark an important security context.
    spec fn spec_is_important(&self) -> bool;

    /// The scope granted to the principal.
    fn scope(&self) -> (r: &Self::Scope)
        ensures
            *r == self.spec_scope(),
    ;

    /// The validity window bounding when the granted access applies.
    fn time_constraint(&self) -> (r: TimeConstraint)
        ensures
            r == self.spec_time_constraint(),
    ;

    /// Whether this security context is durable, pre-provisioned trust that
    /// callers should prioritize over ephemeral, token-derived trust.
    fn is_important(&self) -> (r: bool)
        ensures
            r == self.spec_is_important(),
    ;
}

/// Claims wrapping a scope with an unbounded validity window and no claim to
/// importance.
pub struct Unlimited<S>(pub S);

impl<S> GeneralClaims for Unlimited<S> {
    type Scope = S;

    open spec fn spec_scope(&self) -> S {
        self.0
    }

    open spec fn spec_time_constraint(&self) -> TimeConstraint {
        TimeConstraint::spec_unbounded()
    }

    open spec fn spec_is_important(&self) -> bool {
        false
    }

    fn scope(&self) -> (r: &S) {
        &self.0
    }

    fn time_constraint(&self) -> (r: TimeConstraint) {
        TimeConstraint::unbounded()
    }

    fn is_important(&self) -> (r: bool) {
        false
    }
}

/// The claims type of a backend that never grants any claims.
///
/// The deny-all policy never produces a value of this type: each of its
/// operations is bound by contract to return a denial.
pub struct NoClaims;

impl GeneralClaims for NoClaims {
    type Scope = NoClaims;

    open spec fn spec_scope(&self) -> NoClaims {
        *self
    }

    open spec fn spec_time_constraint(&self) -> TimeConstraint {
        TimeConstraint::spec_unbounded()
    }

    open spec fn spec_is_important(&self) -> bool {
        false
    }

    fn scope(&self) -> (r: &NoClaims) {
        self
    }

    fn time_constraint(&self) -> (r: TimeConstraint) {
        TimeConstraint::unbounded()
    }

    fn is_important(&self) -> (r: bool) {
        false
    }
}

} // verus!
