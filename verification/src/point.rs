//! Affine points: locations in three-dimensional space.

use vstd::prelude::*;

use crate::num::Num;
use crate::util::{float_eq, spec_float_eq};
use crate::vector::Vector;

verus! {

/// Geometric element of euclidian space identifiable by a tuple of coordinates
/// `(x,y,z)`. Under a transformation matrix its implicit homogeneous
/// coordinate is one, so translation does affect it.
#[derive(Copy, Clone, Debug)]
pub struct Point<N: Num> {
    /// coordinate along the `x` axis
    pub x: N,
    /// coordinate along the `y` axis
    pub y: N,
    /// coordinate along the `z` axis
    pub z: N,
}

/// Whether two points agree componentwise up to the scalar tolerance.
pub open spec fn spec_point_eq<N: Num>(a: Point<N>, b: Point<N>) -> bool {
    &&& spec_float_eq(a.x, b.x)
    &&& spec_float_eq(a.y, b.y)
    &&& spec_float_eq(a.z, b.z)
}

impl<N: Num> Point<N> {
    /// `self` displaced by the vector `rhs`, componentwise.
    pub open spec fn spec_add_vector(self, rhs: Vector<N>) -> Point<N> {
        Point { x: self.x.spec_add(rhs.x), y: self.y.spec_add(rhs.y), z: self.z.spec_add(rhs.z) }
    }

    /// The displacement leading from `rhs` to `self`.
    pub open spec fn spec_sub_point(self, rhs: Point<N>) -> Vector<N> {
        Vector { x: self.x.spec_sub(rhs.x), y: self.y.spec_sub(rhs.y), z: self.z.spec_sub(rhs.z) }
    }

    /// `self` displaced by the opposite of the vector `rhs`.
    pub open spec fn spec_sub_vector(self, rhs: Vector<N>) -> Point<N> {
        Point { x: self.x.spec_sub(rhs.x), y: self.y.spec_sub(rhs.y), z: self.z.spec_sub(rhs.z) }
    }

    /// Creates a `Point` in euclidian solid space (three-dimensional) from
    /// specified coordinates.
    pub fn new(x: N, y: N, z: N) -> (r: Self)
        ensures
            r == (Point { x, y, z }),
    {
        Self { x, y, z }
    }

    /// Returns `self` displaced by the vector `rhs`: a point plus a vector is
    /// a point.
    pub fn add(self, rhs: Vector<N>) -> (r: Self)
        ensures
            r == self.spec_add_vector(rhs),
    {
        Point { x: self.x.add(rhs.x), y: self.y.add(rhs.y), z: self.z.add(rhs.z) }
    }

    /// Displaces `self` by the vector `rhs` in place.
    pub fn add_assign(&mut self, rhs: Vector<N>)
        ensures
            *final(self) == old(self).spec_add_vector(rhs),
    {
        self.x = self.x.add(rhs.x);
        self.y = self.y.add(rhs.y);
        self.z = self.z.add(rhs.z);
    }

    /// Returns the displacement from `rhs` to `self`: a point minus a point
    /// is a vector.
    pub fn sub(self, rhs: Point<N>) -> (r: Vector<N>)
        ensures
            r == self.spec_sub_point(rhs),
    {
        Vector { x: self.x.sub(rhs.x), y: self.y.sub(rhs.y), z: self.z.sub(rhs.z) }
    }

    /// Returns `self` displaced against the vector `rhs`: a point minus a
    /// vector is a point.
    pub fn sub_vector(self, rhs: Vector<N>) -> (r: Self)
        ensures
            r == self.spec_sub_vector(rhs),
    {
        Point { x: self.x.sub(rhs.x), y: self.y.sub(rhs.y), z: self.z.sub(rhs.z) }
    }

    /// Displaces `self` against the vector `rhs` in place.
    pub fn sub_assign(&mut self, rhs: Vector<N>)
        ensures
            *final(self) == old(self).spec_sub_vector(rhs),
    {
        self.x = self.x.sub(rhs.x);
        self.y = self.y.sub(rhs.y);
        self.z = self.z.sub(rhs.z);
    }

    /// Returns whether `self` and `rhs` agree componentwise up to the scalar
    /// tolerance.
    pub fn approx_eq(&self, rhs: &Point<N>) -> (r: bool)
        ensures
            r == spec_point_eq(*self, *rhs),
    {
        float_eq(self.x, rhs.x) && float_eq(self.y, rhs.y) && float_eq(self.z, rhs.z)
    }
}

impl<N: Num> PartialEq for Point<N> {
    /// Componentwise comparison up to the scalar tolerance.
    fn eq(&self, other: &Self) -> (r: bool) {
        self.approx_eq(other)
    }
}

impl<N: Num> vstd::std_specs::cmp::PartialEqSpecImpl for Point<N> {
    open spec fn obeys_eq_spec() -> bool {
        true
    }

    open spec fn eq_spec(&self, other: &Self) -> bool {
        spec_point_eq(*self, *other)
    }
}

} // verus!
