//! RGB colors and their conversion to 8-bit channels.

use vstd::prelude::*;

use crate::num::Num;
use crate::util::{float_eq, spec_float_eq};

verus! {

/// Color identified by `(red, green, blue)` tuple.
///
/// Channels are unconstrained during arithmetic: additive or multiplicative
/// blending may drive them negative or past one. They are only clamped at the
/// moment of 8-bit encoding, in [`Color::as_bytes`].
#[derive(Copy, Clone, Debug)]
pub struct Color<N: Num> {
    /// red
    pub r: N,
    /// green
    pub g: N,
    /// blue
    pub b: N,
}

/// Whether two colors agree componentwise up to the scalar tolerance.
pub open spec fn spec_color_eq<N: Num>(a: Color<N>, b: Color<N>) -> bool {
    &&& spec_float_eq(a.r, b.r)
    &&& spec_float_eq(a.g, b.g)
    &&& spec_float_eq(a.b, b.b)
}

/// `v` clamped into the closed interval from zero to one.
pub open spec fn spec_clamp01<N: Num>(v: N) -> N {
    if v.spec_le(N::spec_zero()) {
        N::spec_zero()
    } else if N::spec_one().spec_le(v) {
        N::spec_one()
    } else {
        v
    }
}

/// The 8-bit encoding of one channel: clamp into the unit interval, scale by
/// 255 and round to the nearest integer, ties away from zero.
pub open spec fn spec_channel_byte<N: Num>(v: N) -> u8 {
    spec_clamp01(v).spec_to_byte()
}

/// Clamps one channel into the unit interval.
fn clamp01<N: Num>(v: N) -> (r: N)
    ensures
        r == spec_clamp01(v),
        N::spec_zero().spec_le(r),
        r.spec_le(N::spec_one()),
{
    let zero = N::zero();
    let one = N::one();
    proof {
        N::law_zero_le_one();
        N::law_le_total(N::spec_zero(), N::spec_zero());
        N::law_le_total(N::spec_one(), N::spec_one());
        N::law_le_total(v, N::spec_zero());
        N::law_le_total(N::spec_one(), v);
        N::law_le_total(v, N::spec_one());
        N::law_le_total(N::spec_zero(), v);
    }
    if v.le(zero) {
        zero
    } else if one.le(v) {
        one
    } else {
        v
    }
}

impl<N: Num> Color<N> {
    /// The sum of `self` and `rhs`, channelwise.
    pub open spec fn spec_add(self, rhs: Color<N>) -> Color<N> {
        Color { r: self.r.spec_add(rhs.r), g: self.g.spec_add(rhs.g), b: self.b.spec_add(rhs.b) }
    }

    /// The difference of `self` and `rhs`, channelwise.
    pub open spec fn spec_sub(self, rhs: Color<N>) -> Color<N> {
        Color { r: self.r.spec_sub(rhs.r), g: self.g.spec_sub(rhs.g), b: self.b.spec_sub(rhs.b) }
    }

    /// `self` scaled by the scalar `rhs`, channelwise.
    pub open spec fn spec_scale(self, rhs: N) -> Color<N> {
        Color { r: self.r.spec_mul(rhs), g: self.g.spec_mul(rhs), b: self.b.spec_mul(rhs) }
    }

    /// The channelwise (Hadamard) product of `self` and `rhs`.
    pub open spec fn spec_hadamard(self, rhs: Color<N>) -> Color<N> {
        Color { r: self.r.spec_mul(rhs.r), g: self.g.spec_mul(rhs.g), b: self.b.spec_mul(rhs.b) }
    }

    /// The three 8-bit channels of `self`, each clamped, scaled by 255 and
    /// rounded.
    pub open spec fn spec_as_bytes(self) -> (u8, u8, u8) {
        (spec_channel_byte(self.r), spec_channel_byte(self.g), spec_channel_byte(self.b))
    }

    /// Creates a new color from specified `(red, green, blue)`.
    pub fn new(red: N, green: N, blue: N) -> (r: Self)
        ensures
            r == (Color { r: red, g: green, b: blue }),
    {
        Color { r: red, g: green, b: blue }
    }

    /// Returns the channelwise sum of `self` and `rhs`.
    pub fn add(self, rhs: Color<N>) -> (r: Self)
        ensures
            r == self.spec_add(rhs),
    {
        Color { r: self.r.add(rhs.r), g: self.g.add(rhs.g), b: self.b.add(rhs.b) }
    }

    /// Adds `rhs` to `self` in place.
    pub fn add_assign(&mut self, rhs: Color<N>)
        ensures
            *final(self) == old(self).spec_add(rhs),
    {
        self.r = self.r.add(rhs.r);
        self.g = self.g.add(rhs.g);
        self.b = self.b.add(rhs.b);
    }

    /// Returns the channelwise difference of `self` and `rhs`.
    pub fn sub(self, rhs: Color<N>) -> (r: Self)
        ensures
            r == self.spec_sub(rhs),
    {
        Color { r: self.r.sub(rhs.r), g: self.g.sub(rhs.g), b: self.b.sub(rhs.b) }
    }

    /// Subtracts `rhs` from `self` in place.
    pub fn sub_assign(&mut self, rhs: Color<N>)
        ensures
            *final(self) == old(self).spec_sub(rhs),
    {
        self.r = self.r.sub(rhs.r);
        self.g = self.g.sub(rhs.g);
        self.b = self.b.sub(rhs.b);
    }

    /// Returns `self` scaled by the scalar `rhs`.
    pub fn scale(self, rhs: N) -> (r: Self)
        ensures
            r == self.spec_scale(rhs),
    {
        Color { r: self.r.mul(rhs), g: self.g.mul(rhs), b: self.b.mul(rhs) }
    }

    /// Scales `self` by the scalar `rhs` in place.
    pub fn scale_assign(&mut self, rhs: N)
        ensures
            *final(self) == old(self).spec_scale(rhs),
    {
        self.r = self.r.mul(rhs);
        self.g = self.g.mul(rhs);
        self.b = self.b.mul(rhs);
    }

    /// Returns the channelwise (Hadamard) product of `self` and `rhs`, the
    /// blend used by compositing.
    pub fn hadamard(self, rhs: Color<N>) -> (r: Self)
        ensures
            r == self.spec_hadamard(rhs),
    {
        Color { r: self.r.mul(rhs.r), g: self.g.mul(rhs.g), b: self.b.mul(rhs.b) }
    }

    /// Converts `self` to three 8-bit channels: each channel is clamped into
    /// the unit interval, scaled by 255 and rounded to the nearest integer,
    /// ties away from zero.
    pub fn as_bytes(&self) -> (r: (u8, u8, u8))
        ensures
            r == self.spec_as_bytes(),
    {
        (clamp01(self.r).to_byte(), clamp01(self.g).to_byte(), clamp01(self.b).to_byte())
    }

    /// Returns whether `self` and `rhs` agree channelwise up to the scalar
    /// tolerance.
    pub fn approx_eq(&self, rhs: &Color<N>) -> (r: bool)
        ensures
            r == spec_color_eq(*self, *rhs),
    {
        float_eq(self.r, rhs.r) && float_eq(self.g, rhs.g) && float_eq(self.b, rhs.b)
    }
}

impl<N: Num> PartialEq for Color<N> {
    /// Channelwise comparison up to the scalar tolerance.
    fn eq(&self, other: &Self) -> (r: bool) {
        self.approx_eq(other)
    }
}

impl<N: Num> vstd::std_specs::cmp::PartialEqSpecImpl for Color<N> {
    open spec fn obeys_eq_spec() -> bool {
        true
    }

    open spec fn eq_spec(&self, other: &Self) -> bool {
        spec_color_eq(*self, *other)
    }
}

} // verus!
