//! Signed 64.32 fixed-point scalars.
//!
//! A [`Fx`] holds `value * 2^32` in an `i128` mantissa. Every arithmetic
//! operation is total: results are clamped ("saturated") to the symmetric
//! range `[-CAP, CAP]` instead of overflowing, and a mantissa of `i128::MIN`
//! is treated as `-CAP` on the way in, so no operation ever panics. Each
//! executable operation is pinned to a specification function that states its
//! result exactly, branch for branch.

use vstd::prelude::*;
use vstd::arithmetic::div_mod::lemma_fundamental_div_mod;
use vstd::arithmetic::div_mod::lemma_mod_bound;

verus! {

/// Fixed-point scale: values are mantissa / 2^32.
pub const SCALE: i128 = 4294967296;

/// Unsigned copy of [`SCALE`].
pub const SCALE_U: u128 = 4294967296;

/// Largest mantissa magnitude: i128::MAX.
pub const CAP: i128 = 170141183460469231731687303715884105727;

/// Unsigned copy of [`CAP`].
pub const CAP_U: u128 = 170141183460469231731687303715884105727;

/// u128::MAX, the bound for intermediate unsigned products.
pub const UMAX: u128 = 340282366920938463463374607431768211455;

/// Largest mantissa whose product with SCALE stays below CAP: 2^95 - 1.
pub const CAP_DIV_S: i128 = 39614081257132168796771975167;

/// A fixed-point number: `m` is the value times 2^32.
#[derive(Clone, Copy, PartialEq, Eq, Structural, Debug)]
pub struct Fx {
    pub m: i128,
}

/// Clamp the incoming mantissa: `i128::MIN` (the one value below `-CAP`)
/// reads as `-CAP`, so every magnitude fits in `[0, CAP]`.
pub open spec fn cl(x: int) -> int {
    if x < -CAP { -CAP as int } else { x }
}

/// Saturate a mathematical result into the representable range.
pub open spec fn sat(x: int) -> int {
    if x > CAP {
        CAP as int
    } else if x < -CAP {
        -CAP as int
    } else {
        x
    }
}

/// Magnitude of a clamped mantissa.
pub open spec fn mag(x: int) -> int {
    if cl(x) < 0 {
        -cl(x)
    } else {
        cl(x)
    }
}

impl Fx {
    /// The value this mantissa denotes, as a mathematical integer.
    pub open spec fn v(self) -> int {
        self.m as int
    }

    /// Zero.
    pub open spec fn zero_v() -> Fx {
        Fx { m: 0 }
    }

    /// One (a mantissa of one scale unit).
    pub open spec fn one_v() -> Fx {
        Fx { m: SCALE }
    }

    /// What [`Fx::add`] returns: the saturated sum.
    pub open spec fn add_v(a: Fx, b: Fx) -> Fx {
        Fx { m: sat(cl(a.m as int) + cl(b.m as int)) as i128 }
    }

    /// What [`Fx::neg`] returns: the exact negation (total on the clamped range).
    pub open spec fn neg_v(a: Fx) -> Fx {
        Fx { m: (-cl(a.m as int)) as i128 }
    }

    /// What [`Fx::sub`] returns: the saturated difference.
    pub open spec fn sub_v(a: Fx, b: Fx) -> Fx {
        Fx { m: sat(cl(a.m as int) - cl(b.m as int)) as i128 }
    }

    pub fn zero() -> (r: Fx)
        ensures
            r == Fx::zero_v(),
    {
        Fx { m: 0 }
    }

    pub fn one() -> (r: Fx)
        ensures
            r == Fx::one_v(),
    {
        Fx { m: SCALE }
    }

    /// Clamp the raw mantissa as [`cl`] describes.
    fn clamped(self) -> (r: i128)
        ensures
            r as int == cl(self.m as int),
            -CAP <= r <= CAP,
    {
        if self.m < -CAP {
            -CAP
        } else {
            self.m
        }
    }

    /// Saturating addition.
    pub fn add(self, o: Fx) -> (r: Fx)
        ensures
            r == Fx::add_v(self, o),
    {
        let a = self.clamped();
        let b = o.clamped();
        let m = if a >= 0 && b >= 0 {
            if a > CAP - b {
                CAP
            } else {
                a + b
            }
        } else if a < 0 && b < 0 {
            if a < (-CAP) - b {
                -CAP
            } else {
                a + b
            }
        } else {
            a + b
        };
        Fx { m }
    }

    /// Exact negation.
    pub fn neg(self) -> (r: Fx)
        ensures
            r == Fx::neg_v(self),
    {
        let a = self.clamped();
        Fx { m: -a }
    }

    /// Saturating subtraction.
    pub fn sub(self, o: Fx) -> (r: Fx)
        ensures
            r == Fx::sub_v(self, o),
    {
        self.add(o.neg())
    }

    /// Unsigned magnitude of the clamped mantissa.
    pub fn mag_of(self) -> (r: u128)
        ensures
            r as int == mag(self.m as int),
            r <= CAP_U,
    {
        mag_u(self.m)
    }

    /// Mantissa comparison, `self < o`.
    pub fn lt(self, o: Fx) -> (r: bool)
        ensures
            r == (self.m < o.m),
    {
        self.m < o.m
    }
}

/// Cap a nonnegative magnitude at [`CAP`].
pub open spec fn capm(m: int) -> int {
    if m > CAP {
        CAP as int
    } else {
        m
    }
}

/// Magnitude of a product of two magnitudes, in scale units, saturating.
/// When the full product fits in the unsigned intermediate it is computed
/// exactly; otherwise the larger factor is coarsened by one scale (a relative
/// error below 2^-32, since that factor then exceeds 2^64); if even that
/// overflows, the true product exceeds the representable range and saturates.
pub open spec fn mul_mag_v(x: int, y: int) -> int {
    let hi = if x >= y { x } else { y };
    let lo = if x >= y { y } else { x };
    if lo == 0 {
        0
    } else if hi <= (UMAX as int) / lo {
        (hi * lo) / (SCALE as int)
    } else {
        let h2 = hi / (SCALE as int);
        if h2 != 0 && lo <= (UMAX as int) / h2 {
            h2 * lo
        } else {
            CAP as int
        }
    }
}

/// Magnitude of a quotient of two magnitudes (`y >= 1`), in scale units,
/// saturating. Small dividends are scaled before the division (exact
/// truncating fixed-point division); huge ones are divided first and scaled
/// after, which only drops sub-unit precision of an astronomically large
/// quotient.
pub open spec fn div_mag_v(x: int, y: int) -> int {
    if y <= 0 {
        0
    } else if x <= (UMAX as int) / (SCALE as int) {
        (x * (SCALE as int)) / y
    } else {
        let q = x / y;
        if q > CAP_DIV_S {
            CAP as int
        } else {
            q * (SCALE as int)
        }
    }
}

/// Floor of the square root of a nonnegative integer.
pub open spec fn sqrt_floor(x: int) -> int
    decreases x,
{
    if x <= 0 {
        0
    } else {
        let s = sqrt_floor(x - 1);
        if (s + 1) * (s + 1) <= x {
            s + 1
        } else {
            s
        }
    }
}

/// `sqrt_floor(x)` is the unique `r >= 0` with `r^2 <= x < (r+1)^2`.
pub proof fn lemma_sqrt_floor_bounds(x: int)
    requires
        x >= 0,
    ensures
        sqrt_floor(x) >= 0,
        sqrt_floor(x) * sqrt_floor(x) <= x,
        x < (sqrt_floor(x) + 1) * (sqrt_floor(x) + 1),
    decreases x,
{
    if x > 0 {
        lemma_sqrt_floor_bounds(x - 1);
        let s = sqrt_floor(x - 1);
        if (s + 1) * (s + 1) <= x {
            assert(x < (s + 2) * (s + 2)) by (nonlinear_arith)
                requires
                    s >= 0,
                    x - 1 < (s + 1) * (s + 1),
                    (s + 1) * (s + 1) <= x,
            ;
        }
    }
}

/// Any `r` satisfying the square-root bracketing equals `sqrt_floor(x)`.
pub proof fn lemma_sqrt_floor_unique(x: int, r: int)
    requires
        x >= 0,
        r >= 0,
        r * r <= x,
        x < (r + 1) * (r + 1),
    ensures
        r == sqrt_floor(x),
{
    lemma_sqrt_floor_bounds(x);
    let s = sqrt_floor(x);
    if r < s {
        assert(false) by (nonlinear_arith)
            requires
                0 <= r < s,
                s * s <= x,
                x < (r + 1) * (r + 1),
        ;
    }
    if r > s {
        assert(false) by (nonlinear_arith)
            requires
                0 <= s < r,
                r * r <= x,
                x < (s + 1) * (s + 1),
        ;
    }
}

/// Negation distributes over saturating subtraction.
pub proof fn lemma_sub_neg(a: Fx, b: Fx)
    ensures
        Fx::sub_v(Fx::neg_v(a), Fx::neg_v(b)) == Fx::neg_v(Fx::sub_v(a, b)),
{
}

/// Negation distributes over saturating addition.
pub proof fn lemma_add_neg(a: Fx, b: Fx)
    ensures
        Fx::add_v(Fx::neg_v(a), Fx::neg_v(b)) == Fx::neg_v(Fx::add_v(a, b)),
{
}

/// Adding to a negated value is the negation of subtracting from it.
pub proof fn lemma_add_neg_sub(a: Fx, b: Fx)
    ensures
        Fx::add_v(Fx::neg_v(a), b) == Fx::neg_v(Fx::sub_v(a, b)),
{
}

/// Negating one factor negates a saturating product.
pub proof fn lemma_mul_neg_left(a: Fx, k: Fx)
    ensures
        Fx::mul_v(Fx::neg_v(a), k) == Fx::neg_v(Fx::mul_v(a, k)),
{
    assert(mag((-cl(a.m as int)) as i128 as int) == mag(a.m as int));
}

/// A product is unchanged when both factors are negated.
pub proof fn lemma_mul_neg_both(a: Fx, k: Fx)
    ensures
        Fx::mul_v(Fx::neg_v(a), Fx::neg_v(k)) == Fx::mul_v(a, k),
{
    assert(mag((-cl(a.m as int)) as i128 as int) == mag(a.m as int));
    assert(mag((-cl(k.m as int)) as i128 as int) == mag(k.m as int));
}

/// Negating the dividend negates a saturating quotient.
pub proof fn lemma_div_neg_left(a: Fx, b: Fx)
    ensures
        Fx::div_v(Fx::neg_v(a), b) == Fx::neg_v(Fx::div_v(a, b)),
{
    assert(mag((-cl(a.m as int)) as i128 as int) == mag(a.m as int));
}

/// A product of nonnegative magnitudes is nonnegative.
pub proof fn lemma_mul_mag_nonneg(x: int, y: int)
    requires
        x >= 0,
        y >= 0,
    ensures
        mul_mag_v(x, y) >= 0,
{
    let hi = if x >= y { x } else { y };
    let lo = if x >= y { y } else { x };
    if lo != 0 {
        if hi <= (UMAX as int) / lo {
            assert(hi * lo >= 0) by (nonlinear_arith)
                requires
                    hi >= 0,
                    lo >= 0,
            ;
            vstd::arithmetic::div_mod::lemma_div_pos_is_pos(hi * lo, SCALE as int);
        } else {
            let h2 = hi / (SCALE as int);
            vstd::arithmetic::div_mod::lemma_div_pos_is_pos(hi, SCALE as int);
            if h2 != 0 && lo <= (UMAX as int) / h2 {
                assert(h2 * lo >= 0) by (nonlinear_arith)
                    requires
                        h2 >= 0,
                        lo >= 0,
                ;
            }
        }
    }
}

/// A quotient of nonnegative magnitudes is nonnegative.
pub proof fn lemma_div_mag_nonneg(x: int, y: int)
    requires
        x >= 0,
    ensures
        div_mag_v(x, y) >= 0,
{
    if y > 0 {
        if x <= (UMAX as int) / (SCALE as int) {
            vstd::arithmetic::div_mod::lemma_div_pos_is_pos(x * (SCALE as int), y);
        } else {
            vstd::arithmetic::div_mod::lemma_div_pos_is_pos(x, y);
        }
    }
}

/// A quotient of a nonnegative value by a positive one has a nonnegative
/// mantissa.
pub proof fn lemma_div_v_nonneg(a: Fx, b: Fx)
    requires
        a.m >= 0,
        b.m > 0,
    ensures
        0 <= Fx::div_v(a, b).m <= CAP,
{
    lemma_div_mag_nonneg(mag(a.m as int), mag(b.m as int));
}

/// From `a <= m / b` (all nonnegative, `b > 0`) conclude `a * b <= m`.
pub proof fn lemma_le_div_mul(a: int, b: int, m: int)
    requires
        0 <= a,
        0 < b,
        0 <= m,
        a <= m / b,
    ensures
        a * b <= m,
{
    let q = m / b;
    lemma_fundamental_div_mod(m, b);
    lemma_mod_bound(m, b);
    assert(a * b <= q * b) by (nonlinear_arith)
        requires
            0 <= a,
            a <= q,
            0 < b,
    ;
}

/// Unsigned magnitude of a raw mantissa, reading `i128::MIN` as `-CAP`.
fn mag_u(x: i128) -> (r: u128)
    ensures
        r as int == mag(x as int),
        r <= CAP_U,
{
    if x >= 0 {
        x as u128
    } else if x == i128::MIN {
        CAP_U
    } else {
        (-x) as u128
    }
}

/// Reassemble a sign and a (capped) magnitude into a mantissa.
fn from_sign_mag(neg: bool, m: u128) -> (r: i128)
    ensures
        r as int == (if neg {
            -capm(m as int)
        } else {
            capm(m as int)
        }),
{
    let mm = if m > CAP_U {
        CAP_U
    } else {
        m
    };
    if neg {
        -(mm as i128)
    } else {
        mm as i128
    }
}

/// Floor of the square root of a `u128`, by bracketed binary search.
fn isqrt_u(x: u128) -> (r: u128)
    ensures
        r as int == sqrt_floor(x as int),
        r <= 18446744073709551615u128,
{
    if x == 0 {
        return 0;
    }
    let mut lo: u128 = 0;
    let mut hi: u128 = 18446744073709551616;
    while hi - lo > 1
        invariant
            lo < hi,
            hi <= 18446744073709551616,
            (lo as int) * (lo as int) <= x as int,
            (x as int) < (hi as int) * (hi as int),
        decreases hi - lo,
    {
        let mid = lo + (hi - lo) / 2;
        proof {
            assert((mid as int) * (mid as int) < 340282366920938463463374607431768211456int)
                by (nonlinear_arith)
                requires
                    0 <= mid as int <= 18446744073709551615int,
            ;
        }
        let sq = mid * mid;
        if sq <= x {
            lo = mid;
        } else {
            hi = mid;
        }
    }
    proof {
        lemma_sqrt_floor_unique(x as int, lo as int);
    }
    lo
}

impl Fx {
    /// What [`Fx::mul`] returns: sign by xor, magnitude by [`mul_mag_v`].
    pub open spec fn mul_v(a: Fx, b: Fx) -> Fx {
        let neg = (cl(a.m as int) < 0) != (cl(b.m as int) < 0);
        let m = capm(mul_mag_v(mag(a.m as int), mag(b.m as int)));
        Fx { m: (if neg { -m } else { m }) as i128 }
    }

    /// What [`Fx::div`] returns: sign by xor, magnitude by [`div_mag_v`].
    pub open spec fn div_v(a: Fx, b: Fx) -> Fx {
        let neg = (cl(a.m as int) < 0) != (cl(b.m as int) < 0);
        let m = capm(div_mag_v(mag(a.m as int), mag(b.m as int)));
        Fx { m: (if neg { -m } else { m }) as i128 }
    }

    /// What [`Fx::div_int`] returns: the magnitude divided by `n`, truncating.
    pub open spec fn divi_v(a: Fx, n: int) -> Fx {
        let neg = cl(a.m as int) < 0;
        let m = if n <= 0 {
            0
        } else {
            mag(a.m as int) / n
        };
        Fx { m: (if neg { -m } else { m }) as i128 }
    }

    /// What [`Fx::from_int`] returns: the integer at scale, saturating.
    pub open spec fn from_int_v(i: int) -> Fx {
        let c = cl(i);
        Fx {
            m: (if c > CAP_DIV_S {
                CAP as int
            } else if c < -CAP_DIV_S {
                -CAP as int
            } else {
                c * (SCALE as int)
            }) as i128,
        }
    }

    /// What [`Fx::from_ratio`] returns: `n / d` at scale, truncating toward
    /// zero, saturating (`d >= 1`).
    pub open spec fn from_ratio_v(n: int, d: int) -> Fx {
        let neg = cl(n) < 0;
        let q = if d <= 0 {
            0
        } else if mag(n) <= (UMAX as int) / (SCALE as int) {
            (mag(n) * (SCALE as int)) / d
        } else {
            CAP as int
        };
        Fx { m: (if neg { -capm(q) } else { capm(q) }) as i128 }
    }

    /// What [`Fx::sqrt`] returns (for a nonnegative mantissa): the square
    /// root at scale. Small mantissas are scaled before the root is taken
    /// (exact); mantissas above 2^96 take the root first and rescale after,
    /// keeping a relative error below 2^-31.
    pub open spec fn sqrt_v(a: Fx) -> Fx {
        let x = a.m as int;
        if x < 0 {
            Fx { m: 0 }
        } else if x <= (UMAX as int) / (SCALE as int) {
            Fx { m: sqrt_floor(x * (SCALE as int)) as i128 }
        } else {
            Fx { m: (sqrt_floor(x) * 65536) as i128 }
        }
    }

    /// Saturating multiplication.
    pub fn mul(self, o: Fx) -> (r: Fx)
        ensures
            r == Fx::mul_v(self, o),
    {
        let sn = (self.clamped() < 0) != (o.clamped() < 0);
        let ma = mag_u(self.m);
        let mb = mag_u(o.m);
        let hi = if ma >= mb { ma } else { mb };
        let lo = if ma >= mb { mb } else { ma };
        let rm: u128 = if lo == 0 {
            0
        } else if hi <= UMAX / lo {
            proof {
                lemma_le_div_mul(hi as int, lo as int, UMAX as int);
            }
            (hi * lo) / SCALE_U
        } else {
            let h2 = hi / SCALE_U;
            if h2 != 0 && lo <= UMAX / h2 {
                proof {
                    lemma_le_div_mul(lo as int, h2 as int, UMAX as int);
                }
                h2 * lo
            } else {
                CAP_U
            }
        };
        Fx { m: from_sign_mag(sn, rm) }
    }

    /// Saturating division by a nonzero scalar.
    pub fn div(self, o: Fx) -> (r: Fx)
        requires
            o.m != 0,
        ensures
            r == Fx::div_v(self, o),
    {
        let sn = (self.clamped() < 0) != (o.clamped() < 0);
        let ma = mag_u(self.m);
        let mb = mag_u(o.m);
        let rm: u128 = if ma <= UMAX / SCALE_U {
            proof {
                lemma_le_div_mul(ma as int, SCALE as int, UMAX as int);
            }
            (ma * SCALE_U) / mb
        } else {
            let q = ma / mb;
            if q > 39614081257132168796771975167u128 {
                CAP_U
            } else {
                q * SCALE_U
            }
        };
        Fx { m: from_sign_mag(sn, rm) }
    }

    /// Exact truncating division by a positive integer.
    pub fn div_int(self, n: u128) -> (r: Fx)
        requires
            n >= 1,
        ensures
            r == Fx::divi_v(self, n as int),
    {
        let sn = self.clamped() < 0;
        let ma = mag_u(self.m);
        Fx { m: from_sign_mag(sn, ma / n) }
    }

    /// The integer `i`, as a fixed-point value (saturating).
    pub fn from_int(i: i128) -> (r: Fx)
        ensures
            r == Fx::from_int_v(i as int),
    {
        let c = Fx { m: i }.clamped();
        if c > CAP_DIV_S {
            Fx { m: CAP }
        } else if c < -CAP_DIV_S {
            Fx { m: -CAP }
        } else {
            Fx { m: c * SCALE }
        }
    }

    /// The ratio `n / d` (with `d >= 1`), as a fixed-point value.
    pub fn from_ratio(n: i128, d: i128) -> (r: Fx)
        requires
            d >= 1,
        ensures
            r == Fx::from_ratio_v(n as int, d as int),
    {
        let sn = Fx { m: n }.clamped() < 0;
        let mn = mag_u(n);
        let q: u128 = if mn <= UMAX / SCALE_U {
            proof {
                lemma_le_div_mul(mn as int, SCALE as int, UMAX as int);
            }
            (mn * SCALE_U) / (d as u128)
        } else {
            CAP_U
        };
        Fx { m: from_sign_mag(sn, q) }
    }

    /// Fixed-point square root of a nonnegative value.
    pub fn sqrt(self) -> (r: Fx)
        requires
            self.m >= 0,
        ensures
            r == Fx::sqrt_v(self),
    {
        let xm = self.m as u128;
        if xm <= UMAX / SCALE_U {
            proof {
                lemma_le_div_mul(xm as int, SCALE as int, UMAX as int);
            }
            let s = isqrt_u(xm * SCALE_U);
            Fx { m: s as i128 }
        } else {
            let s = isqrt_u(xm);
            Fx { m: (s * 65536) as i128 }
        }
    }
}

} // verus!
