//! Tolerant scalar comparison shared by every component.

use vstd::prelude::*;

use crate::num::Num;

verus! {

/// Whether `left` and `right` differ by at most the scalar's tolerance.
pub open spec fn spec_float_eq<N: Num>(left: N, right: N) -> bool {
    left.spec_sub(right).spec_abs().spec_le(N::spec_epsilon())
}

/// Compares two scalars up to the scalar's tolerance: true exactly when
/// `|left - right| <= epsilon`.
pub fn float_eq<N: Num>(left: N, right: N) -> (r: bool)
    ensures
        r == spec_float_eq(left, right),
{
    left.sub(right).abs().le(N::epsilon())
}

/// Tolerant equality is reflexive: a value differs from itself by zero,
/// which the tolerance allows.
pub proof fn lemma_float_eq_refl<N: Num>(a: N)
    ensures
        spec_float_eq(a, a),
{
    N::law_sub_self(a);
    N::law_abs_zero();
    N::law_eps_nonneg();
}

} // verus!
