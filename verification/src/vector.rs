//! Free vectors: direction and magnitude in three-dimensional space.

use vstd::prelude::*;

use crate::num::Num;
use crate::util::{float_eq, lemma_float_eq_refl, spec_float_eq};

verus! {

/// Geometric object that has magnitude and direction denoted by a tuple of
/// scalar components `(x,y,z)`. Under a transformation matrix its implicit
/// homogeneous coordinate is zero, so translation never affects it.
#[derive(Copy, Clone, Debug)]
pub struct Vector<N: Num> {
    /// scalar component along the `x` axis
    pub x: N,
    /// scalar component along the `y` axis
    pub y: N,
    /// scalar component along the `z` axis
    pub z: N,
}

/// Whether two vectors agree componentwise up to the scalar tolerance.
pub open spec fn spec_vector_eq<N: Num>(a: Vector<N>, b: Vector<N>) -> bool {
    &&& spec_float_eq(a.x, b.x)
    &&& spec_float_eq(a.y, b.y)
    &&& spec_float_eq(a.z, b.z)
}

impl<N: Num> Vector<N> {
    /// The sum of `self` and `rhs`, componentwise.
    pub open spec fn spec_add(self, rhs: Vector<N>) -> Vector<N> {
        Vector { x: self.x.spec_add(rhs.x), y: self.y.spec_add(rhs.y), z: self.z.spec_add(rhs.z) }
    }

    /// The difference of `self` and `rhs`, componentwise.
    pub open spec fn spec_sub(self, rhs: Vector<N>) -> Vector<N> {
        Vector { x: self.x.spec_sub(rhs.x), y: self.y.spec_sub(rhs.y), z: self.z.spec_sub(rhs.z) }
    }

    /// The negation of `self`, componentwise.
    pub open spec fn spec_neg(self) -> Vector<N> {
        Vector { x: self.x.spec_neg(), y: self.y.spec_neg(), z: self.z.spec_neg() }
    }

    /// `self` scaled by `rhs`, componentwise.
    pub open spec fn spec_scale(self, rhs: N) -> Vector<N> {
        Vector { x: self.x.spec_mul(rhs), y: self.y.spec_mul(rhs), z: self.z.spec_mul(rhs) }
    }

    /// `self` divided by `rhs`, componentwise.
    pub open spec fn spec_div(self, rhs: N) -> Vector<N> {
        Vector { x: self.x.spec_div(rhs), y: self.y.spec_div(rhs), z: self.z.spec_div(rhs) }
    }

    /// The dot product of `self` and `rhs`.
    pub open spec fn spec_dot(self, rhs: Vector<N>) -> N {
        self.x.spec_mul(rhs.x).spec_add(self.y.spec_mul(rhs.y)).spec_add(self.z.spec_mul(rhs.z))
    }

    /// The Euclidean norm of `self`.
    pub open spec fn spec_len(self) -> N {
        self.spec_dot(self).spec_sqrt()
    }

    /// `self` divided by its own length. When the length is zero the
    /// components are whatever the scalar's division by zero yields.
    pub open spec fn spec_normalized(self) -> Vector<N> {
        self.spec_div(self.spec_len())
    }

    /// The cross product of `self` and `rhs`, right-handed.
    pub open spec fn spec_cross(self, rhs: Vector<N>) -> Vector<N> {
        Vector {
            x: self.y.spec_mul(rhs.z).spec_sub(self.z.spec_mul(rhs.y)),
            y: self.z.spec_mul(rhs.x).spec_sub(self.x.spec_mul(rhs.z)),
            z: self.x.spec_mul(rhs.y).spec_sub(self.y.spec_mul(rhs.x)),
        }
    }

    /// Creates a `Vector` in euclidian solid space (three-dimensional) from
    /// specified scalar components.
    pub fn new(x: N, y: N, z: N) -> (r: Self)
        ensures
            r == (Vector { x, y, z }),
    {
        Self { x, y, z }
    }

    /// Returns the length/magnitude of the vector.
    pub fn len(&self) -> (r: N)
        ensures
            r == self.spec_len(),
    {
        self.x.mul(self.x).add(self.y.mul(self.y)).add(self.z.mul(self.z)).sqrt()
    }

    /// Normalizes the vector in place. Callers must guarantee a nonzero
    /// magnitude: a zero-length vector divides by zero, and the components
    /// become whatever the scalar's division by zero yields.
    pub fn normalize(&mut self)
        ensures
            *final(self) == old(self).spec_normalized(),
    {
        let length: N = self.len();
        self.x = self.x.div(length);
        self.y = self.y.div(length);
        self.z = self.z.div(length);
    }

    /// Returns the normalized version of the vector; the same caveat about
    /// zero magnitude as [`Vector::normalize`] applies.
    pub fn normalized(&self) -> (r: Self)
        ensures
            r == self.spec_normalized(),
    {
        let length: N = self.len();
        Vector { x: self.x.div(length), y: self.y.div(length), z: self.z.div(length) }
    }

    /// Returns the dot product between `self` and `rhs`.
    pub fn dot(&self, rhs: Vector<N>) -> (r: N)
        ensures
            r == self.spec_dot(rhs),
    {
        self.x.mul(rhs.x).add(self.y.mul(rhs.y)).add(self.z.mul(rhs.z))
    }

    /// Returns the cross product between `self` and `rhs` (right-handed
    /// orientation: x cross y is z, y cross z is x, z cross x is y).
    pub fn cross(&self, rhs: Vector<N>) -> (r: Vector<N>)
        ensures
            r == self.spec_cross(rhs),
    {
        Vector {
            x: self.y.mul(rhs.z).sub(self.z.mul(rhs.y)),
            y: self.z.mul(rhs.x).sub(self.x.mul(rhs.z)),
            z: self.x.mul(rhs.y).sub(self.y.mul(rhs.x)),
        }
    }

    /// Returns the componentwise sum of `self` and `rhs`.
    pub fn add(self, rhs: Vector<N>) -> (r: Self)
        ensures
            r == self.spec_add(rhs),
    {
        Vector { x: self.x.add(rhs.x), y: self.y.add(rhs.y), z: self.z.add(rhs.z) }
    }

    /// Adds `rhs` to `self` in place.
    pub fn add_assign(&mut self, rhs: Vector<N>)
        ensures
            *final(self) == old(self).spec_add(rhs),
    {
        self.x = self.x.add(rhs.x);
        self.y = self.y.add(rhs.y);
        self.z = self.z.add(rhs.z);
    }

    /// Returns the componentwise difference of `self` and `rhs`.
    pub fn sub(self, rhs: Vector<N>) -> (r: Self)
        ensures
            r == self.spec_sub(rhs),
    {
        Vector { x: self.x.sub(rhs.x), y: self.y.sub(rhs.y), z: self.z.sub(rhs.z) }
    }

    /// Subtracts `rhs` from `self` in place.
    pub fn sub_assign(&mut self, rhs: Vector<N>)
        ensures
            *final(self) == old(self).spec_sub(rhs),
    {
        self.x = self.x.sub(rhs.x);
        self.y = self.y.sub(rhs.y);
        self.z = self.z.sub(rhs.z);
    }

    /// Returns the componentwise negation of `self`.
    pub fn neg(self) -> (r: Self)
        ensures
            r == self.spec_neg(),
    {
        Vector { x: self.x.neg(), y: self.y.neg(), z: self.z.neg() }
    }

    /// Returns `self` scaled by the scalar `rhs`.
    pub fn scale(self, rhs: N) -> (r: Self)
        ensures
            r == self.spec_scale(rhs),
    {
        Vector { x: self.x.mul(rhs), y: self.y.mul(rhs), z: self.z.mul(rhs) }
    }

    /// Scales `self` by the scalar `rhs` in place.
    pub fn scale_assign(&mut self, rhs: N)
        ensures
            *final(self) == old(self).spec_scale(rhs),
    {
        self.x = self.x.mul(rhs);
        self.y = self.y.mul(rhs);
        self.z = self.z.mul(rhs);
    }

    /// Returns `self` divided by the scalar `rhs`.
    pub fn div(self, rhs: N) -> (r: Self)
        ensures
            r == self.spec_div(rhs),
    {
        Vector { x: self.x.div(rhs), y: self.y.div(rhs), z: self.z.div(rhs) }
    }

    /// Divides `self` by the scalar `rhs` in place.
    pub fn div_assign(&mut self, rhs: N)
        ensures
            *final(self) == old(self).spec_div(rhs),
    {
        self.x = self.x.div(rhs);
        self.y = self.y.div(rhs);
        self.z = self.z.div(rhs);
    }

    /// Returns whether `self` and `rhs` agree componentwise up to the scalar
    /// tolerance.
    pub fn approx_eq(&self, rhs: &Vector<N>) -> (r: bool)
        ensures
            r == spec_vector_eq(*self, *rhs),
    {
        float_eq(self.x, rhs.x) && float_eq(self.y, rhs.y) && float_eq(self.z, rhs.z)
    }
}

impl<N: Num> PartialEq for Vector<N> {
    /// Componentwise comparison up to the scalar tolerance.
    fn eq(&self, other: &Self) -> (r: bool) {
        self.approx_eq(other)
    }
}

impl<N: Num> vstd::std_specs::cmp::PartialEqSpecImpl for Vector<N> {
    open spec fn obeys_eq_spec() -> bool {
        true
    }

    open spec fn eq_spec(&self, other: &Self) -> bool {
        spec_vector_eq(*self, *other)
    }
}

impl<N: Num> From<(N, N, N)> for Vector<N> {
    /// Reads the components off a plain triple, in order.
    fn from(tuple: (N, N, N)) -> (r: Self) {
        Self { x: tuple.0, y: tuple.1, z: tuple.2 }
    }
}

impl<N: Num> vstd::std_specs::convert::FromSpecImpl<(N, N, N)> for Vector<N> {
    open spec fn obeys_from_spec() -> bool {
        true
    }

    open spec fn from_spec(tuple: (N, N, N)) -> Self {
        Vector { x: tuple.0, y: tuple.1, z: tuple.2 }
    }
}

/// The cross product is anti-commutative: crossing in the other order and
/// negating gives the very same components, so the two sides are also equal
/// under the tolerant comparison.
pub proof fn lemma_cross_anticommutes<N: Num>(a: Vector<N>, b: Vector<N>)
    ensures
        a.spec_cross(b) == b.spec_cross(a).spec_neg(),
        spec_vector_eq(a.spec_cross(b), b.spec_cross(a).spec_neg()),
{
    N::law_mul_comm(a.y, b.z);
    N::law_mul_comm(a.z, b.y);
    N::law_mul_comm(a.x, b.z);
    N::law_mul_comm(a.z, b.x);
    N::law_mul_comm(a.x, b.y);
    N::law_mul_comm(a.y, b.x);
    N::law_neg_sub(b.y.spec_mul(a.z), b.z.spec_mul(a.y));
    N::law_neg_sub(b.z.spec_mul(a.x), b.x.spec_mul(a.z));
    N::law_neg_sub(b.x.spec_mul(a.y), b.y.spec_mul(a.x));
    lemma_float_eq_refl(a.spec_cross(b).x);
    lemma_float_eq_refl(a.spec_cross(b).y);
    lemma_float_eq_refl(a.spec_cross(b).z);
}

} // verus!
