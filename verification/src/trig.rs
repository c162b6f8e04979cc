//! Fixed-point circular functions.
//!
//! Arguments are reduced into `[-pi, pi]` by integer remainder, folded into a
//! quadrant by symmetry, and evaluated with truncated power series whose
//! largest omitted term is below 3e-5 on the folded range. Each function is
//! pinned to a specification function that mirrors it branch for branch, so
//! callers reason about the exact computed value, not the ideal real one.

use vstd::prelude::*;
use crate::fixed::Fx;
use crate::fixed::cl;
use crate::fixed::mag;
use crate::fixed::sqrt_floor;
use crate::fixed::lemma_sqrt_floor_bounds;
use crate::fixed::CAP;
use crate::fixed::SCALE;
use crate::fixed::UMAX;
use crate::vec3::lemma_mul_self_nonneg;

verus! {

/// Mantissa of pi.
pub const PI_M: i128 = 13493037704;

/// Mantissa of 2 pi (exactly twice `PI_M`).
pub const TWO_PI_M: i128 = 26986075408;

/// Unsigned copy of `TWO_PI_M`.
pub const TWO_PI_U: u128 = 26986075408;

/// Mantissa of pi / 2 (exactly half of `PI_M`).
pub const HALF_PI_M: i128 = 6746518852;

/// Mantissa of 4.
pub const FOUR_M: i128 = 17179869184;

/// Reduction of an angle into `[-pi, pi]` by remainder modulo 2 pi.
pub open spec fn reduce_v(x: Fx) -> Fx {
    let neg = cl(x.m as int) < 0;
    let rem = mag(x.m as int) % (TWO_PI_M as int);
    let s = if neg {
        -rem
    } else {
        rem
    };
    let t = if s > PI_M {
        s - TWO_PI_M
    } else if s < -PI_M {
        s + TWO_PI_M
    } else {
        s
    };
    Fx { m: t as i128 }
}

/// The truncated sine series on a folded quadrant:
/// `t (1 - t^2/6 (1 - t^2/20 (1 - t^2/42 (1 - t^2/72))))`.
pub open spec fn sin_poly_v(t: Fx) -> Fx {
    let one = Fx::one_v();
    let t2 = Fx::mul_v(t, t);
    let c4 = Fx::sub_v(one, Fx::divi_v(t2, 72));
    let c3 = Fx::sub_v(one, Fx::divi_v(Fx::mul_v(t2, c4), 42));
    let c2 = Fx::sub_v(one, Fx::divi_v(Fx::mul_v(t2, c3), 20));
    let c1 = Fx::sub_v(one, Fx::divi_v(Fx::mul_v(t2, c2), 6));
    Fx::mul_v(t, c1)
}

/// The truncated cosine series on a folded quadrant:
/// `1 - t^2/2 (1 - t^2/12 (1 - t^2/30 (1 - t^2/56)))`.
pub open spec fn cos_poly_v(t: Fx) -> Fx {
    let one = Fx::one_v();
    let t2 = Fx::mul_v(t, t);
    let c4 = Fx::sub_v(one, Fx::divi_v(t2, 56));
    let c3 = Fx::sub_v(one, Fx::divi_v(Fx::mul_v(t2, c4), 30));
    let c2 = Fx::sub_v(one, Fx::divi_v(Fx::mul_v(t2, c3), 12));
    Fx::sub_v(one, Fx::divi_v(Fx::mul_v(t2, c2), 2))
}

/// What [`fsin`] returns: reduce, fold by `sin(pi - t) == sin(t)`, evaluate.
#[verifier::opaque]
pub open spec fn fsin_v(x: Fx) -> Fx {
    let t = reduce_v(x);
    if t.m > HALF_PI_M {
        sin_poly_v(Fx::sub_v(Fx { m: PI_M }, t))
    } else if t.m < -HALF_PI_M {
        sin_poly_v(Fx::sub_v(Fx { m: (-PI_M) as i128 }, t))
    } else {
        sin_poly_v(t)
    }
}

/// What [`fcos`] returns: reduce, fold by `cos(t) == -cos(pi - |t|)`.
#[verifier::opaque]
pub open spec fn fcos_v(x: Fx) -> Fx {
    let t = reduce_v(x);
    let a = if t.m >= 0 {
        t
    } else {
        Fx::neg_v(t)
    };
    if a.m > HALF_PI_M {
        Fx::neg_v(cos_poly_v(Fx::sub_v(Fx { m: PI_M }, a)))
    } else {
        cos_poly_v(a)
    }
}

/// What [`ftan`] returns: the quotient of sine and cosine, saturated to the
/// representable extreme when the cosine rounds to zero.
#[verifier::opaque]
pub open spec fn ftan_v(x: Fx) -> Fx {
    let s = fsin_v(x);
    let c = fcos_v(x);
    if c.m == 0 {
        Fx { m: if s.m < 0 { -CAP as i128 } else { CAP as i128 } }
    } else {
        Fx::div_v(s, c)
    }
}

/// The truncated arctangent series `u - u^3/3 + u^5/5 - u^7/7`, used only
/// after two half-angle reductions have brought `|u|` under one fifth.
pub open spec fn atan_poly_v(u: Fx) -> Fx {
    let u2 = Fx::mul_v(u, u);
    let u3 = Fx::mul_v(u2, u);
    let u5 = Fx::mul_v(u3, u2);
    let u7 = Fx::mul_v(u5, u2);
    Fx::sub_v(Fx::add_v(Fx::sub_v(u, Fx::divi_v(u3, 3)), Fx::divi_v(u5, 5)), Fx::divi_v(u7, 7))
}

/// One half-angle reduction: `atan(w) = 2 atan(w / (1 + sqrt(1 + w^2)))`.
pub open spec fn atan_red_v(w: Fx) -> Fx {
    let one = Fx::one_v();
    Fx::div_v(w, Fx::add_v(one, Fx::sqrt_v(Fx::add_v(one, Fx::mul_v(w, w)))))
}

/// Arctangent after two half-angle reductions: `4 atan(u2)` by series.
pub open spec fn atan_core_v(u: Fx) -> Fx {
    let u1 = atan_red_v(u);
    let u2 = atan_red_v(u1);
    Fx::mul_v(Fx { m: FOUR_M }, atan_poly_v(u2))
}

/// What [`fatan`] returns: the core on `[-1, 1]`, and the reflection
/// `atan(w) = (+-)pi/2 - atan(1/w)` outside it.
#[verifier::opaque]
pub open spec fn fatan_v(w: Fx) -> Fx {
    let aw = if w.m >= 0 {
        w
    } else {
        Fx::neg_v(w)
    };
    if aw.m <= SCALE {
        atan_core_v(w)
    } else if w.m > 0 {
        Fx::sub_v(Fx { m: HALF_PI_M }, atan_core_v(Fx::div_v(Fx::one_v(), w)))
    } else {
        Fx::sub_v(Fx { m: (-HALF_PI_M) as i128 }, atan_core_v(Fx::div_v(Fx::one_v(), w)))
    }
}

/// The square root of a nonnegative value is nonnegative.
pub proof fn lemma_sqrt_nonneg(a: Fx)
    requires
        a.m >= 0,
    ensures
        Fx::sqrt_v(a).m >= 0,
{
    let x = a.m as int;
    if x <= (UMAX as int) / (SCALE as int) {
        crate::fixed::lemma_le_div_mul(x, SCALE as int, UMAX as int);
        lemma_sqrt_floor_bounds(x * (SCALE as int));
        let s = sqrt_floor(x * (SCALE as int));
        assert(s < 18446744073709551616int) by (nonlinear_arith)
            requires
                s >= 0,
                s * s <= x * (SCALE as int),
                x * (SCALE as int) <= UMAX as int,
        ;
    } else {
        lemma_sqrt_floor_bounds(x);
        let s = sqrt_floor(x);
        assert(s < 18446744073709551616int) by (nonlinear_arith)
            requires
                s >= 0,
                s * s <= x,
                x <= CAP as int,
        ;
    }
}

/// Reduce an angle into `[-pi, pi]`.
pub fn reduce(x: Fx) -> (r: Fx)
    ensures
        r == reduce_v(x),
        -PI_M <= r.m <= PI_M,
{
    let neg = x.m < 0;
    let remu = crate::fixed::Fx::mag_of(x) % TWO_PI_U;
    let rem = remu as i128;
    let s = if neg {
        -rem
    } else {
        rem
    };
    let t = if s > PI_M {
        s - TWO_PI_M
    } else if s < -PI_M {
        s + TWO_PI_M
    } else {
        s
    };
    Fx { m: t }
}

/// Truncated sine series on a folded quadrant.
fn sin_poly(t: Fx) -> (r: Fx)
    ensures
        r == sin_poly_v(t),
{
    let one = Fx::one();
    let t2 = t.mul(t);
    let c4 = one.sub(t2.div_int(72));
    let c3 = one.sub(t2.mul(c4).div_int(42));
    let c2 = one.sub(t2.mul(c3).div_int(20));
    let c1 = one.sub(t2.mul(c2).div_int(6));
    t.mul(c1)
}

/// Truncated cosine series on a folded quadrant.
fn cos_poly(t: Fx) -> (r: Fx)
    ensures
        r == cos_poly_v(t),
{
    let one = Fx::one();
    let t2 = t.mul(t);
    let c4 = one.sub(t2.div_int(56));
    let c3 = one.sub(t2.mul(c4).div_int(30));
    let c2 = one.sub(t2.mul(c3).div_int(12));
    one.sub(t2.mul(c2).div_int(2))
}

/// Fixed-point sine.
pub fn fsin(x: Fx) -> (r: Fx)
    ensures
        r == fsin_v(x),
{
    proof {
        reveal(fsin_v);
    }
    let t = reduce(x);
    if t.m > HALF_PI_M {
        sin_poly(Fx { m: PI_M }.sub(t))
    } else if t.m < -HALF_PI_M {
        sin_poly(Fx { m: -PI_M }.sub(t))
    } else {
        sin_poly(t)
    }
}

/// Fixed-point cosine.
pub fn fcos(x: Fx) -> (r: Fx)
    ensures
        r == fcos_v(x),
{
    proof {
        reveal(fcos_v);
    }
    let t = reduce(x);
    let a = if t.m >= 0 {
        t
    } else {
        t.neg()
    };
    if a.m > HALF_PI_M {
        cos_poly(Fx { m: PI_M }.sub(a)).neg()
    } else {
        cos_poly(a)
    }
}

/// Fixed-point tangent, saturating where the cosine rounds to zero.
pub fn ftan(x: Fx) -> (r: Fx)
    ensures
        r == ftan_v(x),
{
    proof {
        reveal(ftan_v);
    }
    let s = fsin(x);
    let c = fcos(x);
    if c.m == 0 {
        Fx { m: if s.m < 0 { -CAP } else { CAP } }
    } else {
        s.div(c)
    }
}

/// Truncated arctangent series.
fn atan_poly(u: Fx) -> (r: Fx)
    ensures
        r == atan_poly_v(u),
{
    let u2 = u.mul(u);
    let u3 = u2.mul(u);
    let u5 = u3.mul(u2);
    let u7 = u5.mul(u2);
    u.sub(u3.div_int(3)).add(u5.div_int(5)).sub(u7.div_int(7))
}

/// One half-angle reduction for the arctangent.
fn atan_red(w: Fx) -> (r: Fx)
    ensures
        r == atan_red_v(w),
{
    let one = Fx::one();
    proof {
        lemma_mul_self_nonneg(w);
    }
    let sq_arg = one.add(w.mul(w));
    proof {
        lemma_sqrt_nonneg(sq_arg);
    }
    let den = one.add(sq_arg.sqrt());
    w.div(den)
}

/// Arctangent after two half-angle reductions.
fn atan_core(u: Fx) -> (r: Fx)
    ensures
        r == atan_core_v(u),
{
    let u1 = atan_red(u);
    let u2 = atan_red(u1);
    Fx { m: FOUR_M }.mul(atan_poly(u2))
}

/// Fixed-point arctangent.
pub fn fatan(w: Fx) -> (r: Fx)
    ensures
        r == fatan_v(w),
{
    proof {
        reveal(fatan_v);
    }
    let aw = if w.m >= 0 {
        w
    } else {
        w.neg()
    };
    if aw.m <= SCALE {
        atan_core(w)
    } else if w.m > 0 {
        Fx { m: HALF_PI_M }.sub(atan_core(Fx::one().div(w)))
    } else {
        Fx { m: -HALF_PI_M }.sub(atan_core(Fx::one().div(w)))
    }
}

} // verus!
