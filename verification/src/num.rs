//! The scalar abstraction every other component is generic over.

use vstd::prelude::*;

verus! {

/// Contract of the scalar numbers the kernel computes with.
///
/// A scalar type offers the four arithmetic operators, negation, a total
/// ordering, an absolute value, a square root, and a small positive tolerance
/// used for approximate equality. Each executable operation is pinned to an
/// abstract specification function of the same name, so that every result the
/// kernel computes is a known function of its inputs.
///
/// The laws (`law_*`) state the identities of exact real arithmetic that the
/// kernel's algebraic theorems rest on. An implementation backed by
/// floating-point numbers satisfies the operation contracts exactly (each
/// operation is a deterministic function of its operands) and the laws up to
/// rounding on finite values; the tolerance in [`crate::float_eq`] exists
/// precisely to absorb that rounding drift. Nothing here is proved about an
/// implementation: whoever implements `Num` vouches for it.
pub trait Num: Sized + Copy {
    /// The value of `self + rhs`.
    spec fn spec_add(self, rhs: Self) -> Self;

    /// The value of `self - rhs`.
    spec fn spec_sub(self, rhs: Self) -> Self;

    /// The value of `self * rhs`.
    spec fn spec_mul(self, rhs: Self) -> Self;

    /// The value of `self / rhs`.
    spec fn spec_div(self, rhs: Self) -> Self;

    /// The value of `-self`.
    spec fn spec_neg(self) -> Self;

    /// The absolute value of `self`.
    spec fn spec_abs(self) -> Self;

    /// The square root of `self`.
    spec fn spec_sqrt(self) -> Self;

    /// Whether `self <= rhs` in the scalar's total order.
    spec fn spec_le(self, rhs: Self) -> bool;

    /// The additive identity.
    spec fn spec_zero() -> Self;

    /// The multiplicative identity.
    spec fn spec_one() -> Self;

    /// The tolerance for approximate equality.
    spec fn spec_epsilon() -> Self;

    /// `self` scaled by 255 and rounded to the nearest integer, ties away
    /// from zero; only meaningful for `self` between zero and one.
    spec fn spec_to_byte(self) -> u8;

    /// Returns `self + rhs`.
    fn add(self, rhs: Self) -> (r: Self)
        ensures
            r == self.spec_add(rhs),
    ;

    /// Returns `self - rhs`.
    fn sub(self, rhs: Self) -> (r: Self)
        ensures
            r == self.spec_sub(rhs),
    ;

    /// Returns `self * rhs`.
    fn mul(self, rhs: Self) -> (r: Self)
        ensures
            r == self.spec_mul(rhs),
    ;

    /// Returns `self / rhs`. Division by zero must not abort: it yields
    /// whatever the scalar type defines (IEEE scalars yield an infinity or a
    /// quiet not-a-number).
    fn div(self, rhs: Self) -> (r: Self)
        ensures
            r == self.spec_div(rhs),
    ;

    /// Returns `-self`.
    fn neg(self) -> (r: Self)
        ensures
            r == self.spec_neg(),
    ;

    /// Returns the absolute value of `self`.
    fn abs(self) -> (r: Self)
        ensures
            r == self.spec_abs(),
    ;

    /// Returns the square root of `self`.
    fn sqrt(self) -> (r: Self)
        ensures
            r == self.spec_sqrt(),
    ;

    /// Returns whether `self <= rhs`.
    fn le(self, rhs: Self) -> (r: bool)
        ensures
            r == self.spec_le(rhs),
    ;

    /// Returns the additive identity.
    fn zero() -> (r: Self)
        ensures
            r == Self::spec_zero(),
    ;

    /// Returns the multiplicative identity.
    fn one() -> (r: Self)
        ensures
            r == Self::spec_one(),
    ;

    /// Returns the tolerance for approximate equality.
    fn epsilon() -> (r: Self)
        ensures
            r == Self::spec_epsilon(),
    ;

    /// Returns `self` scaled by 255 and rounded to the nearest integer, ties
    /// away from zero. Callers guarantee `self` lies between zero and one.
    fn to_byte(self) -> (r: u8)
        requires
            Self::spec_zero().spec_le(self),
            self.spec_le(Self::spec_one()),
        ensures
            r == self.spec_to_byte(),
    ;

    /// Zero is the additive identity.
    proof fn law_add_zero(a: Self)
        ensures
            a.spec_add(Self::spec_zero()) == a,
            Self::spec_zero().spec_add(a) == a,
    ;

    /// One is the multiplicative identity.
    proof fn law_mul_one(a: Self)
        ensures
            a.spec_mul(Self::spec_one()) == a,
            Self::spec_one().spec_mul(a) == a,
    ;

    /// Zero absorbs multiplication.
    proof fn law_mul_zero(a: Self)
        ensures
            a.spec_mul(Self::spec_zero()) == Self::spec_zero(),
            Self::spec_zero().spec_mul(a) == Self::spec_zero(),
    ;

    /// Multiplication is commutative.
    proof fn law_mul_comm(a: Self, b: Self)
        ensures
            a.spec_mul(b) == b.spec_mul(a),
    ;

    /// A value minus itself is zero.
    proof fn law_sub_self(a: Self)
        ensures
            a.spec_sub(a) == Self::spec_zero(),
    ;

    /// Negating a difference swaps its operands.
    proof fn law_neg_sub(a: Self, b: Self)
        ensures
            a.spec_sub(b).spec_neg() == b.spec_sub(a),
    ;

    /// The absolute value of zero is zero.
    proof fn law_abs_zero()
        ensures
            Self::spec_zero().spec_abs() == Self::spec_zero(),
    ;

    /// The tolerance is not negative.
    proof fn law_eps_nonneg()
        ensures
            Self::spec_zero().spec_le(Self::spec_epsilon()),
    ;

    /// The order is total.
    proof fn law_le_total(a: Self, b: Self)
        ensures
            a.spec_le(b) || b.spec_le(a),
    ;

    /// Zero does not exceed one.
    proof fn law_zero_le_one()
        ensures
            Self::spec_zero().spec_le(Self::spec_one()),
    ;
}

/// Whether `a` and `b` are the same point of the scalar's total order.
///
/// This is the exact comparison behind [`crate::Matrix::is_invertible`], not
/// the tolerant one of [`crate::float_eq`].
pub open spec fn spec_eq_num<N: Num>(a: N, b: N) -> bool {
    a.spec_le(b) && b.spec_le(a)
}

} // verus!
