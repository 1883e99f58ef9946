use vstd::prelude::*;

verus! {

/// Material implication: `a` implies `b` exactly when `a` is false or `b` holds.
pub open spec fn spec_implies(a: bool, b: bool) -> bool {
    !a || b
}

/// Converse implication: `a` is implied by `b` exactly when `b` is false or `a` holds.
pub open spec fn spec_implied_by(a: bool, b: bool) -> bool {
    !b || a
}

/// Extensions for `bool`.
pub trait BoolExt: Sized {
    /// What `implies` returns, as a specification-level function.
    spec fn implies_spec(self, other: Self) -> Self;

    /// What `implied_by` returns, as a specification-level function.
    spec fn implied_by_spec(self, other: Self) -> Self;

    /// Logical implication, equivalent to `!self || other`.
    #[must_use]
    fn implies(self, other: Self) -> (r: Self)
        ensures
            r == self.implies_spec(other),
    ;

    /// Inverse of [`BoolExt::implies`]: equivalent to `!other || self`.
    #[must_use]
    fn implied_by(self, other: Self) -> (r: Self)
        ensures
            r == self.implied_by_spec(other),
    ;
}

impl BoolExt for bool {
    open spec fn implies_spec(self, other: bool) -> bool {
        spec_implies(self, other)
    }

    open spec fn implied_by_spec(self, other: bool) -> bool {
        spec_implied_by(self, other)
    }

    fn implies(self, other: bool) -> (r: bool)
        ensures
            r == spec_implies(self, other),
    {
        !self || other
    }

    fn implied_by(self, other: bool) -> (r: bool)
        ensures
            r == spec_implied_by(self, other),
    {
        !other || self
    }
}

/// For all booleans `a` and `b`: `implies` computes `!a || b`, `implied_by`
/// computes `!b || a`, and the two are each other's argument-order reversal.
pub proof fn lemma_implication_forms(a: bool, b: bool)
    ensures
        a.implies_spec(b) == (!a || b),
        a.implied_by_spec(b) == (!b || a),
        a.implies_spec(b) == b.implied_by_spec(a),
{
}

} // verus!
