//! Keplerian elements to state vectors.
//!
//! Solves Kepler's equation `M = E - ecc * sin(E)` for the eccentric anomaly
//! by Newton-Raphson, converts to the true anomaly, and rotates the
//! perifocal-frame position and velocity into the parent-centered inertial
//! frame. The Newton iteration uses a deliberate convergence criterion: the
//! residual is computed, the update applied, and the *pre-update* residual
//! compared against the tolerance; the loop is bounded by an iteration cap
//! and surfaces a convergence failure instead of running forever.

use vstd::prelude::*;
use crate::fixed::Fx;
use crate::fixed::SCALE;
use crate::fixed::CAP;
use crate::fixed::UMAX;
use crate::fixed::mag;
use crate::fixed::lemma_div_v_nonneg;
use vstd::arithmetic::div_mod::lemma_div_by_multiple;
use crate::trig::PI_M;
use crate::trig::fsin;
use crate::trig::fcos;
use crate::trig::ftan;
use crate::trig::fatan;
use crate::trig::fsin_v;
use crate::trig::fcos_v;
use crate::trig::ftan_v;
use crate::trig::fatan_v;
use crate::trig::lemma_sqrt_nonneg;
use crate::vec3::V3;
use crate::vec3::v3_add;

verus! {

/// Failure of Keplerian construction. Failures are local to the body being
/// built: the caller's already-constructed state is unaffected.
#[derive(Clone, Copy, PartialEq, Eq, Structural, Debug)]
pub enum KeplerError {
    /// The element set is degenerate (a zero semi-latus rectum or a
    /// non-positive focal denominator): continuing would divide by zero.
    DegenerateVector,
    /// The bounded Newton-Raphson solve did not meet the tolerance.
    ConvergenceFailure,
}

/// A position/velocity pair: one body's dynamical state at an instant.
#[derive(Clone, Copy, PartialEq, Eq, Structural, Debug)]
pub struct StateVectors {
    pub position: V3<Fx>,
    pub velocity: V3<Fx>,
}

/// Iteration cap for the Newton-Raphson solve: far beyond the worst
/// convergence of the solve on admissible eccentricities, so hitting it is
/// surfaced as a failure rather than looping without bound.
pub const MAX_NEWTON_STEPS: u32 = 64;

/// Mantissa of 0.8, the high-eccentricity threshold for the initial guess.
pub const ECC_HIGH_M: i128 = 3435973836;

/// Mantissa of 2.
pub const TWO_M: i128 = 8589934592;

/// Mantissa of pi / 180, the degree-to-radian factor.
pub const RAD_PER_DEG_M: i128 = 74961320;

/// Initial Newton guess: `pi` for high eccentricities (above 0.8), the mean
/// anomaly itself otherwise.
pub open spec fn newton_start_v(ma: Fx, ecc: Fx) -> Fx {
    if ecc.m > ECC_HIGH_M {
        Fx { m: PI_M }
    } else {
        ma
    }
}

/// The bounded Newton-Raphson iteration on Kepler's equation, returning the
/// eccentric anomaly *after* the update on which the pre-update residual
/// first fell below the tolerance.
pub open spec fn newton_v(ea: Fx, ecc: Fx, ma: Fx, tol: Fx, fuel: nat) -> Result<Fx, KeplerError>
    decreases fuel,
{
    if fuel == 0 {
        Err(KeplerError::ConvergenceFailure)
    } else {
        let f = Fx::sub_v(Fx::sub_v(ea, Fx::mul_v(ecc, fsin_v(ea))), ma);
        let d = Fx::sub_v(Fx::one_v(), Fx::mul_v(ecc, fcos_v(ea)));
        if d.m == 0 {
            Err(KeplerError::ConvergenceFailure)
        } else {
            let ea2 = Fx::sub_v(ea, Fx::div_v(f, d));
            if f.m < tol.m {
                Ok(ea2)
            } else {
                newton_v(ea2, ecc, ma, tol, (fuel - 1) as nat)
            }
        }
    }
}

/// Eccentric anomaly to true anomaly:
/// `2 * atan( sqrt((1 + ecc) / (1 - ecc)) * tan(ea / 2) )`.
pub open spec fn true_anom_v(ea: Fx, ecc: Fx) -> Fx {
    let one = Fx::one_v();
    let ratio = Fx::div_v(Fx::add_v(one, ecc), Fx::sub_v(one, ecc));
    let k = Fx::sqrt_v(ratio);
    Fx::mul_v(Fx { m: TWO_M }, fatan_v(Fx::mul_v(k, ftan_v(Fx::divi_v(ea, 2)))))
}

/// What [`mean_anomaly_to_true`] returns: the bounded Newton solve from the
/// eccentricity-dependent start, then the conversion to true anomaly.
pub open spec fn mean_to_true_v(ma: Fx, ecc: Fx, tol: Fx) -> Result<Fx, KeplerError> {
    match newton_v(newton_start_v(ma, ecc), ecc, ma, tol, MAX_NEWTON_STEPS as nat) {
        Ok(ea) => Ok(true_anom_v(ea, ecc)),
        Err(e) => Err(e),
    }
}

/// Solve Kepler's equation and convert the result to a true anomaly.
///
/// The residual check deliberately tests the *pre-update* residual after the
/// update has been applied, and the check is signed (`f < tolerance`), not an
/// absolute-value test: both choices are part of the scheme, not accidents.
#[verifier::rlimit(100)]
pub fn mean_anomaly_to_true(ma: Fx, ecc: Fx, tolerance: Fx) -> (r: Result<Fx, KeplerError>)
    requires
        0 <= ecc.m < SCALE,
    ensures
        r == mean_to_true_v(ma, ecc, tolerance),
{
    let mut ea = if ecc.m > ECC_HIGH_M {
        Fx { m: PI_M }
    } else {
        ma
    };
    let ghost target = newton_v(newton_start_v(ma, ecc), ecc, ma, tolerance,
        MAX_NEWTON_STEPS as nat);
    let mut k: u32 = 0;
    let mut solved: Option<Fx> = None;
    while k < MAX_NEWTON_STEPS && solved.is_none()
        invariant
            k <= MAX_NEWTON_STEPS,
            0 <= ecc.m < SCALE,
            target == newton_v(newton_start_v(ma, ecc), ecc, ma, tolerance,
                MAX_NEWTON_STEPS as nat),
            match solved {
                Some(e) => target == Ok::<Fx, KeplerError>(e),
                None => newton_v(ea, ecc, ma, tolerance, (MAX_NEWTON_STEPS - k) as nat)
                    == target,
            },
        decreases MAX_NEWTON_STEPS - k,
    {
        let f = ea.sub(ecc.mul(fsin(ea))).sub(ma);
        let d = Fx::one().sub(ecc.mul(fcos(ea)));
        proof {
            assert(newton_v(ea, ecc, ma, tolerance, (MAX_NEWTON_STEPS - k) as nat) == (if d.m
                == 0 {
                Err::<Fx, KeplerError>(KeplerError::ConvergenceFailure)
            } else {
                let ea2 = Fx::sub_v(ea, Fx::div_v(f, d));
                if f.m < tolerance.m {
                    Ok::<Fx, KeplerError>(ea2)
                } else {
                    newton_v(ea2, ecc, ma, tolerance, (MAX_NEWTON_STEPS - k - 1) as nat)
                }
            }));
        }
        if d.m == 0 {
            return Err(KeplerError::ConvergenceFailure);
        }
        ea = ea.sub(f.div(d));
        k = k + 1;
        if f.m < tolerance.m {
            solved = Some(ea);
        }
    }
    match solved {
        None => Err(KeplerError::ConvergenceFailure),
        Some(ea_fin) => {
            let one = Fx::one();
            let num = one.add(ecc);
            let den = one.sub(ecc);
            proof {
                lemma_div_v_nonneg(num, den);
            }
            let ratio = num.div(den);
            let kfac = ratio.sqrt();
            let t = ftan(ea_fin.div_int(2));
            Ok(Fx { m: TWO_M }.mul(fatan(kfac.mul(t))))
        },
    }
}

/// The orbital radius `p / (1 + ecc * cos(ta))` with `p = sma (1 - ecc^2)`.
pub open spec fn orbit_radius_v(sma: Fx, ecc: Fx, ta: Fx) -> Fx {
    let one = Fx::one_v();
    let p = Fx::mul_v(sma, Fx::sub_v(one, Fx::mul_v(ecc, ecc)));
    let den = Fx::add_v(one, Fx::mul_v(ecc, fcos_v(ta)));
    Fx::div_v(p, den)
}

/// What [`StateVectors::from_keplerian`] returns.
///
/// The tolerance handed to the solver is one mantissa unit (2^-32), the
/// smallest positive value this scale can express: it accepts exactly the
/// first nonpositive pre-update residual.
#[verifier::opaque]
pub open spec fn from_keplerian_v(
    gm: Fx,
    sma: Fx,
    ecc: Fx,
    inc: Fx,
    aop: Fx,
    lan: Fx,
    ma: Fx,
) -> Result<StateVectors, KeplerError> {
    let one = Fx::one_v();
    let rad = Fx { m: RAD_PER_DEG_M };
    match mean_to_true_v(ma, ecc, Fx { m: 1 }) {
        Err(e) => Err(e),
        Ok(ta) => {
            let p = Fx::mul_v(sma, Fx::sub_v(one, Fx::mul_v(ecc, ecc)));
            let den = Fx::add_v(one, Fx::mul_v(ecc, fcos_v(ta)));
            if p.m <= 0 || den.m <= 0 {
                Err(KeplerError::DegenerateVector)
            } else {
                let radius = orbit_radius_v(sma, ecc, ta);
                let inc_r = Fx::mul_v(inc, rad);
                let aop_r = Fx::mul_v(aop, rad);
                let lan_r = Fx::mul_v(lan, rad);
                let apt = Fx::add_v(aop_r, ta);
                let sin_aop_ta = fsin_v(apt);
                let cos_aop_ta = fcos_v(apt);
                let sin_inc = fsin_v(inc_r);
                let cos_inc = fcos_v(inc_r);
                let sin_lan = fsin_v(lan_r);
                let cos_lan = fcos_v(lan_r);
                let sin_aop = fsin_v(aop_r);
                let cos_aop = fcos_v(aop_r);
                let px = Fx::mul_v(radius,
                    Fx::sub_v(Fx::mul_v(cos_aop_ta, cos_lan),
                        Fx::mul_v(Fx::mul_v(cos_inc, sin_aop_ta), sin_lan)));
                let py = Fx::mul_v(radius,
                    Fx::add_v(Fx::mul_v(cos_aop_ta, sin_lan),
                        Fx::mul_v(Fx::mul_v(cos_inc, sin_aop_ta), cos_lan)));
                let pz = Fx::mul_v(Fx::mul_v(radius, sin_aop_ta), sin_inc);
                let sgp = Fx::sqrt_v(Fx::div_v(gm, p));
                let cos_ta_ecc = Fx::add_v(fcos_v(ta), ecc);
                let sin_ta = fsin_v(ta);
                let vx = Fx::sub_v(
                    Fx::mul_v(Fx::mul_v(sgp, cos_ta_ecc),
                        Fx::sub_v(Fx::mul_v(Fx::neg_v(sin_aop), cos_lan),
                            Fx::mul_v(Fx::mul_v(cos_inc, sin_lan), cos_aop))),
                    Fx::mul_v(Fx::mul_v(sgp, sin_ta),
                        Fx::sub_v(Fx::mul_v(cos_aop, cos_lan),
                            Fx::mul_v(Fx::mul_v(cos_inc, sin_lan), sin_aop))));
                let vy = Fx::sub_v(
                    Fx::mul_v(Fx::mul_v(sgp, cos_ta_ecc),
                        Fx::add_v(Fx::mul_v(Fx::neg_v(sin_aop), sin_lan),
                            Fx::mul_v(Fx::mul_v(cos_inc, cos_lan), cos_aop))),
                    Fx::mul_v(Fx::mul_v(sgp, sin_ta),
                        Fx::add_v(Fx::mul_v(cos_aop, sin_lan),
                            Fx::mul_v(Fx::mul_v(cos_inc, cos_lan), sin_aop))));
                let vz = Fx::mul_v(sgp,
                    Fx::sub_v(Fx::mul_v(Fx::mul_v(cos_ta_ecc, sin_inc), cos_aop),
                        Fx::mul_v(Fx::mul_v(sin_ta, sin_inc), sin_aop)));
                Ok(StateVectors {
                    position: V3 { x: px, y: py, z: pz },
                    velocity: V3 { x: vx, y: vy, z: vz },
                })
            }
        },
    }
}

/// What [`StateVectors::relative_to`] returns: the component-wise sum. The
/// "relative" transform removes a relative frame: a parent-relative state
/// plus the parent's absolute state is the child's absolute state.
pub open spec fn relative_to_v(a: StateVectors, b: StateVectors) -> StateVectors {
    StateVectors {
        position: v3_add(a.position, b.position),
        velocity: v3_add(a.velocity, b.velocity),
    }
}

impl StateVectors {
    /// Convert a gravitational parameter and six classical orbital elements
    /// (a bound orbit: `0 <= ecc < 1`) into a parent-centered state-vector
    /// pair. Angular elements are in degrees; the mean anomaly in radians.
    pub fn from_keplerian(gm: Fx, sma: Fx, ecc: Fx, inc: Fx, aop: Fx, lan: Fx, ma: Fx) -> (r:
        Result<StateVectors, KeplerError>)
        requires
            0 <= ecc.m < SCALE,
            0 <= gm.m,
        ensures
            r == from_keplerian_v(gm, sma, ecc, inc, aop, lan, ma),
    {
        proof {
            reveal(from_keplerian_v);
        }
        let one = Fx::one();
        let rad = Fx { m: RAD_PER_DEG_M };
        let ta = match mean_anomaly_to_true(ma, ecc, Fx { m: 1 }) {
            Err(e) => {
                return Err(e);
            },
            Ok(ta) => ta,
        };
        let p = sma.mul(one.sub(ecc.mul(ecc)));
        let den = one.add(ecc.mul(fcos(ta)));
        if p.m <= 0 || den.m <= 0 {
            return Err(KeplerError::DegenerateVector);
        }
        let radius = p.div(den);
        let inc_r = inc.mul(rad);
        let aop_r = aop.mul(rad);
        let lan_r = lan.mul(rad);
        let apt = aop_r.add(ta);
        let sin_aop_ta = fsin(apt);
        let cos_aop_ta = fcos(apt);
        let sin_inc = fsin(inc_r);
        let cos_inc = fcos(inc_r);
        let sin_lan = fsin(lan_r);
        let cos_lan = fcos(lan_r);
        let sin_aop = fsin(aop_r);
        let cos_aop = fcos(aop_r);
        let px = radius.mul(cos_aop_ta.mul(cos_lan).sub(cos_inc.mul(sin_aop_ta).mul(sin_lan)));
        let py = radius.mul(cos_aop_ta.mul(sin_lan).add(cos_inc.mul(sin_aop_ta).mul(cos_lan)));
        let pz = radius.mul(sin_aop_ta).mul(sin_inc);
        proof {
            lemma_div_v_nonneg(gm, p);
            lemma_sqrt_nonneg(Fx::div_v(gm, p));
        }
        let sgp = gm.div(p).sqrt();
        let cos_ta_ecc = fcos(ta).add(ecc);
        let sin_ta = fsin(ta);
        let vx = sgp.mul(cos_ta_ecc).mul(
            sin_aop.neg().mul(cos_lan).sub(cos_inc.mul(sin_lan).mul(cos_aop)),
        ).sub(sgp.mul(sin_ta).mul(cos_aop.mul(cos_lan).sub(cos_inc.mul(sin_lan).mul(sin_aop))));
        let vy = sgp.mul(cos_ta_ecc).mul(
            sin_aop.neg().mul(sin_lan).add(cos_inc.mul(cos_lan).mul(cos_aop)),
        ).sub(sgp.mul(sin_ta).mul(cos_aop.mul(sin_lan).add(cos_inc.mul(cos_lan).mul(sin_aop))));
        let vz = sgp.mul(
            cos_ta_ecc.mul(sin_inc).mul(cos_aop).sub(sin_ta.mul(sin_inc).mul(sin_aop)),
        );
        Ok(StateVectors {
            position: V3 { x: px, y: py, z: pz },
            velocity: V3 { x: vx, y: vy, z: vz },
        })
    }

    /// Compose this parent-relative state with the parent's absolute state,
    /// yielding this body's absolute state.
    pub fn relative_to(self, other: &StateVectors) -> (r: StateVectors)
        ensures
            r == relative_to_v(self, *other),
    {
        StateVectors {
            position: self.position.add(&other.position),
            velocity: self.velocity.add(&other.velocity),
        }
    }
}

/// With zero eccentricity the orbital radius equals the semi-major axis for
/// *every* true anomaly: the circular-orbit invariant (the radius does not
/// depend on where along the orbit the body is).
pub proof fn lemma_circular_radius(sma: Fx, ecc: Fx, ta: Fx)
    requires
        ecc == Fx::zero_v(),
        0 <= sma.m,
        sma.m as int <= (UMAX as int) / (SCALE as int),
    ensures
        orbit_radius_v(sma, ecc, ta) == sma,
{
    let one = Fx::one_v();
    assert(Fx::mul_v(ecc, ecc) == Fx::zero_v());
    assert(Fx::mul_v(ecc, fcos_v(ta)) == Fx::zero_v());
    assert(Fx::sub_v(one, Fx::zero_v()) == one);
    assert(Fx::add_v(one, Fx::zero_v()) == one);
    let x = mag(sma.m as int);
    assert(x == sma.m as int);
    // sma * 1 and sma / 1 both reduce to an exact (x * SCALE) / SCALE == x.
    lemma_div_by_multiple(x, SCALE as int);
    if x >= SCALE {
        assert(Fx::mul_v(sma, one) == sma);
    } else if x >= 1 {
        vstd::arithmetic::div_mod::lemma_div_is_ordered_by_denominator(
            UMAX as int,
            x,
            SCALE as int,
        );
        vstd::arithmetic::div_mod::lemma_div_multiples_vanish(x, SCALE as int);
        assert(Fx::mul_v(sma, one) == sma);
    } else {
        assert(Fx::mul_v(sma, one) == sma);
    }
    assert(Fx::div_v(sma, one) == sma);
}

/// Frame composition is associative where no component saturates: composing
/// a grandchild's state through its parent and then the grandparent equals
/// composing the summed relative offsets directly against the grandparent.
pub proof fn lemma_compose_associative(c: StateVectors, p: StateVectors, g: StateVectors)
    requires
        fits3(c.position.x, p.position.x, g.position.x),
        fits3(c.position.y, p.position.y, g.position.y),
        fits3(c.position.z, p.position.z, g.position.z),
        fits3(c.velocity.x, p.velocity.x, g.velocity.x),
        fits3(c.velocity.y, p.velocity.y, g.velocity.y),
        fits3(c.velocity.z, p.velocity.z, g.velocity.z),
    ensures
        relative_to_v(relative_to_v(c, p), g) == relative_to_v(c, relative_to_v(p, g)),
{
}

/// Three addends whose partial and total sums all stay representable.
pub open spec fn fits3(x: Fx, y: Fx, z: Fx) -> bool {
    &&& -CAP <= x.m && -CAP <= y.m && -CAP <= z.m
    &&& -CAP <= x.m + y.m <= CAP
    &&& -CAP <= y.m + z.m <= CAP
    &&& -CAP <= x.m + y.m + z.m <= CAP
}

} // verus!
