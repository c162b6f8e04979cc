//! 3-component vectors and their fixed-point algebra.
//!
//! `V3<T>` is a plain component triple; the arithmetic (component-wise
//! addition and subtraction, uniform scaling, Euclidean distance, and
//! scale-to-magnitude) is provided for the fixed-point instantiation
//! `V3<Fx>`, each operation pinned to a specification function.

use vstd::prelude::*;
use crate::fixed::Fx;
use crate::fixed::cl;
use crate::fixed::mag;
use crate::fixed::CAP;

verus! {

/// A 3-component vector of `T`.
#[derive(Clone, Copy, PartialEq, Eq, Structural, Debug)]
pub struct V3<T> {
    pub x: T,
    pub y: T,
    pub z: T,
}

/// The zero vector.
pub open spec fn v3_zero() -> V3<Fx> {
    V3 { x: Fx::zero_v(), y: Fx::zero_v(), z: Fx::zero_v() }
}

/// Component-wise saturating sum.
pub open spec fn v3_add(a: V3<Fx>, b: V3<Fx>) -> V3<Fx> {
    V3 { x: Fx::add_v(a.x, b.x), y: Fx::add_v(a.y, b.y), z: Fx::add_v(a.z, b.z) }
}

/// Component-wise saturating difference.
pub open spec fn v3_sub(a: V3<Fx>, b: V3<Fx>) -> V3<Fx> {
    V3 { x: Fx::sub_v(a.x, b.x), y: Fx::sub_v(a.y, b.y), z: Fx::sub_v(a.z, b.z) }
}

/// Component-wise negation.
pub open spec fn v3_neg(a: V3<Fx>) -> V3<Fx> {
    V3 { x: Fx::neg_v(a.x), y: Fx::neg_v(a.y), z: Fx::neg_v(a.z) }
}

/// Uniform scaling by a scalar.
pub open spec fn v3_scale_by(a: V3<Fx>, k: Fx) -> V3<Fx> {
    V3 { x: Fx::mul_v(a.x, k), y: Fx::mul_v(a.y, k), z: Fx::mul_v(a.z, k) }
}

/// Sum of the squared component differences of two vectors.
pub open spec fn v3_dist_sq(a: V3<Fx>, b: V3<Fx>) -> Fx {
    let dx = Fx::sub_v(a.x, b.x);
    let dy = Fx::sub_v(a.y, b.y);
    let dz = Fx::sub_v(a.z, b.z);
    Fx::add_v(Fx::add_v(Fx::mul_v(dx, dx), Fx::mul_v(dy, dy)), Fx::mul_v(dz, dz))
}

/// Euclidean distance between two vectors.
pub open spec fn v3_dist(a: V3<Fx>, b: V3<Fx>) -> Fx {
    Fx::sqrt_v(v3_dist_sq(a, b))
}

/// Scaling a vector to a target magnitude `m`: each component becomes
/// `component * m / |v|`. The product is taken before the division because
/// the quotient `m / |v|` of a small magnitude by an astronomical length
/// truncates to nothing at this scale, while the product-first form keeps
/// full precision. A zero-length vector cannot be given a direction; it is
/// returned as the zero vector rather than dividing by zero (the
/// degenerate-vector policy).
pub open spec fn v3_scale_to(a: V3<Fx>, m: Fx) -> V3<Fx> {
    let d = v3_dist(a, v3_zero());
    if d.m == 0 {
        v3_zero()
    } else {
        V3 {
            x: Fx::div_v(Fx::mul_v(a.x, m), d),
            y: Fx::div_v(Fx::mul_v(a.y, m), d),
            z: Fx::div_v(Fx::mul_v(a.z, m), d),
        }
    }
}

/// A value times itself has a nonnegative (and capped) mantissa.
pub proof fn lemma_mul_self_nonneg(a: Fx)
    ensures
        0 <= Fx::mul_v(a, a).m <= CAP,
{
    crate::fixed::lemma_mul_mag_nonneg(mag(a.m as int), mag(a.m as int));
}

impl V3<Fx> {
    /// The zero vector.
    pub fn zero() -> (r: V3<Fx>)
        ensures
            r == v3_zero(),
    {
        V3 { x: Fx::zero(), y: Fx::zero(), z: Fx::zero() }
    }

    /// Component-wise saturating addition.
    pub fn add(&self, other: &V3<Fx>) -> (r: V3<Fx>)
        ensures
            r == v3_add(*self, *other),
    {
        V3 { x: self.x.add(other.x), y: self.y.add(other.y), z: self.z.add(other.z) }
    }

    /// Component-wise saturating subtraction.
    pub fn sub(&self, other: &V3<Fx>) -> (r: V3<Fx>)
        ensures
            r == v3_sub(*self, *other),
    {
        V3 { x: self.x.sub(other.x), y: self.y.sub(other.y), z: self.z.sub(other.z) }
    }

    /// Component-wise negation.
    pub fn neg(&self) -> (r: V3<Fx>)
        ensures
            r == v3_neg(*self),
    {
        V3 { x: self.x.neg(), y: self.y.neg(), z: self.z.neg() }
    }

    /// Uniform saturating scaling.
    pub fn scale_by(&self, scalar: Fx) -> (r: V3<Fx>)
        ensures
            r == v3_scale_by(*self, scalar),
    {
        V3 { x: self.x.mul(scalar), y: self.y.mul(scalar), z: self.z.mul(scalar) }
    }

    /// Euclidean distance to `other`.
    pub fn pythagoras(&self, other: &V3<Fx>) -> (r: Fx)
        ensures
            r == v3_dist(*self, *other),
    {
        let dx = self.x.sub(other.x);
        let dy = self.y.sub(other.y);
        let dz = self.z.sub(other.z);
        proof {
            lemma_mul_self_nonneg(dx);
            lemma_mul_self_nonneg(dy);
            lemma_mul_self_nonneg(dz);
        }
        let sum = dx.mul(dx).add(dy.mul(dy)).add(dz.mul(dz));
        sum.sqrt()
    }

    /// Scale to the given magnitude, returning the zero vector when `self`
    /// has zero length (the degenerate-vector policy: never divide by zero).
    pub fn scale_to(&self, magnitude: Fx) -> (r: V3<Fx>)
        ensures
            r == v3_scale_to(*self, magnitude),
    {
        let d = self.pythagoras(&V3::zero());
        if d.m == 0 {
            V3::zero()
        } else {
            V3 {
                x: self.x.mul(magnitude).div(d),
                y: self.y.mul(magnitude).div(d),
                z: self.z.mul(magnitude).div(d),
            }
        }
    }
}

/// Negation distributes over component-wise subtraction.
pub proof fn lemma_v3_sub_neg(a: V3<Fx>, b: V3<Fx>)
    ensures
        v3_sub(v3_neg(a), v3_neg(b)) == v3_neg(v3_sub(a, b)),
{
    crate::fixed::lemma_sub_neg(a.x, b.x);
    crate::fixed::lemma_sub_neg(a.y, b.y);
    crate::fixed::lemma_sub_neg(a.z, b.z);
}

/// Negation distributes over component-wise addition.
pub proof fn lemma_v3_add_neg(a: V3<Fx>, b: V3<Fx>)
    ensures
        v3_add(v3_neg(a), v3_neg(b)) == v3_neg(v3_add(a, b)),
{
    crate::fixed::lemma_add_neg(a.x, b.x);
    crate::fixed::lemma_add_neg(a.y, b.y);
    crate::fixed::lemma_add_neg(a.z, b.z);
}

/// Adding to a negated vector is the negation of subtracting from it.
pub proof fn lemma_v3_add_neg_sub(a: V3<Fx>, b: V3<Fx>)
    ensures
        v3_add(v3_neg(a), b) == v3_neg(v3_sub(a, b)),
{
    crate::fixed::lemma_add_neg_sub(a.x, b.x);
    crate::fixed::lemma_add_neg_sub(a.y, b.y);
    crate::fixed::lemma_add_neg_sub(a.z, b.z);
}

/// Scaling a negated vector negates the scaled vector.
pub proof fn lemma_v3_scale_by_neg(a: V3<Fx>, k: Fx)
    ensures
        v3_scale_by(v3_neg(a), k) == v3_neg(v3_scale_by(a, k)),
{
    crate::fixed::lemma_mul_neg_left(a.x, k);
    crate::fixed::lemma_mul_neg_left(a.y, k);
    crate::fixed::lemma_mul_neg_left(a.z, k);
}

/// Distance is invariant under negating both endpoints.
pub proof fn lemma_v3_dist_neg(a: V3<Fx>, b: V3<Fx>)
    ensures
        v3_dist(v3_neg(a), v3_neg(b)) == v3_dist(a, b),
{
    lemma_v3_sub_neg(a, b);
    crate::fixed::lemma_mul_neg_both(Fx::sub_v(a.x, b.x), Fx::sub_v(a.x, b.x));
    crate::fixed::lemma_mul_neg_both(Fx::sub_v(a.y, b.y), Fx::sub_v(a.y, b.y));
    crate::fixed::lemma_mul_neg_both(Fx::sub_v(a.z, b.z), Fx::sub_v(a.z, b.z));
}

/// Scaling a negated vector to a magnitude negates the result.
pub proof fn lemma_v3_scale_to_neg(a: V3<Fx>, m: Fx)
    ensures
        v3_scale_to(v3_neg(a), m) == v3_neg(v3_scale_to(a, m)),
{
    assert(v3_neg(v3_zero()) == v3_zero());
    lemma_v3_dist_neg(a, v3_zero());
    let d = v3_dist(a, v3_zero());
    if d.m != 0 {
        crate::fixed::lemma_mul_neg_left(a.x, m);
        crate::fixed::lemma_mul_neg_left(a.y, m);
        crate::fixed::lemma_mul_neg_left(a.z, m);
        crate::fixed::lemma_div_neg_left(Fx::mul_v(a.x, m), d);
        crate::fixed::lemma_div_neg_left(Fx::mul_v(a.y, m), d);
        crate::fixed::lemma_div_neg_left(Fx::mul_v(a.z, m), d);
    }
}

/// Distance is symmetric: `|a - b| == |b - a|` for every pair of vectors.
pub proof fn lemma_distance_symmetric(a: V3<Fx>, b: V3<Fx>)
    ensures
        v3_dist(a, b) == v3_dist(b, a),
{
    lemma_mul_sub_sym(a.x, b.x);
    lemma_mul_sub_sym(a.y, b.y);
    lemma_mul_sub_sym(a.z, b.z);
}

/// The square of a difference does not depend on the order of the operands.
proof fn lemma_mul_sub_sym(p: Fx, q: Fx)
    ensures
        Fx::mul_v(Fx::sub_v(p, q), Fx::sub_v(p, q)) == Fx::mul_v(Fx::sub_v(q, p), Fx::sub_v(q, p)),
{
    let d1 = Fx::sub_v(p, q);
    let d2 = Fx::sub_v(q, p);
    assert(d1.m as int == -(d2.m as int));
    assert(mag(d1.m as int) == mag(d2.m as int));
    assert((cl(d1.m as int) < 0) == !(cl(d2.m as int) < 0) || d1.m == 0);
}

} // verus!
