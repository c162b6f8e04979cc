//! The pairwise gravitational integrator.
//!
//! One step walks all ordered pairs in ascending order (ascending `i`,
//! ascending `j > i`), applying equal-and-opposite velocity impulses, and
//! advances body `i`'s position immediately after its inner pass: a
//! semi-implicit (symplectic) Euler update whose exact traversal order is
//! part of the contract — it is pinned, update for update, to the
//! specification recursion, so two runs over equal states produce equal
//! trajectories. Collisions are detected and reported, never resolved.

use vstd::prelude::*;
use crate::fixed::Fx;
use crate::vec3::V3;
use crate::vec3::v3_add;
use crate::vec3::v3_sub;
use crate::vec3::v3_neg;
use crate::vec3::v3_dist;
use crate::vec3::v3_scale_by;
use crate::vec3::v3_scale_to;
use crate::kepler::StateVectors;
use crate::system::Celestial;
use crate::system::grav_param;
use crate::system::grav_param_v;

verus! {

/// A detected collision: the indices of two bodies whose center-to-center
/// distance was below the sum of their radii when their pair was examined.
/// Detection only: the simulation state is unaffected.
#[derive(Clone, Copy, PartialEq, Eq, Structural, Debug)]
pub struct Collision {
    pub first: usize,
    pub second: usize,
}

/// `s` with body `k`'s velocity replaced.
pub open spec fn set_vel(s: Seq<Celestial>, k: int, v: V3<Fx>) -> Seq<Celestial> {
    s.update(
        k,
        Celestial {
            name: s[k].name,
            colour: s[k].colour,
            mass: s[k].mass,
            radius: s[k].radius,
            orbit: StateVectors { position: s[k].orbit.position, velocity: v },
        },
    )
}

/// `s` with body `k`'s position replaced.
pub open spec fn set_pos(s: Seq<Celestial>, k: int, p: V3<Fx>) -> Seq<Celestial> {
    s.update(
        k,
        Celestial {
            name: s[k].name,
            colour: s[k].colour,
            mass: s[k].mass,
            radius: s[k].radius,
            orbit: StateVectors { position: p, velocity: s[k].orbit.velocity },
        },
    )
}

/// Whether the pair `(i, j)` is in collision when examined: distance below
/// the sum of the radii.
#[verifier::opaque]
pub open spec fn collides_v(s: Seq<Celestial>, i: int, j: int) -> bool {
    v3_dist(s[i].orbit.position, s[j].orbit.position).m < Fx::add_v(s[i].radius, s[j].radius).m
}

/// The equal-and-opposite velocity impulses of one pair: each body receives
/// the pair's separation vector scaled to `dt * G * m_other / r^2`, body `i`
/// away from `j` and body `j` toward `i`. A pair whose squared separation
/// rounds to zero would produce a singular force; its impulse is skipped for
/// this pass (the known near-zero-separation singularity, handled by
/// omission rather than by storing non-finite values).
#[verifier::opaque]
pub open spec fn pair_v(s: Seq<Celestial>, i: int, j: int, dt: Fx) -> Seq<Celestial> {
    if i < 0 || i >= s.len() || j < 0 || j >= s.len() {
        s
    } else {
        pair_body_v(s, i, j, dt)
    }
}

/// The in-bounds body of [`pair_v`].
pub open spec fn pair_body_v(s: Seq<Celestial>, i: int, j: int, dt: Fx) -> Seq<Celestial> {
    let pi = s[i].orbit.position;
    let pj = s[j].orbit.position;
    let d = v3_dist(pi, pj);
    let r2 = Fx::mul_v(d, d);
    if r2.m == 0 {
        s
    } else {
        let fv = v3_sub(pi, pj);
        let ai = Fx::mul_v(dt, Fx::div_v(grav_param_v(s[j].mass), r2));
        let aj = Fx::mul_v(dt, Fx::div_v(grav_param_v(s[i].mass), r2));
        let vi = v3_sub(s[i].orbit.velocity, v3_scale_to(fv, ai));
        let vj = v3_add(s[j].orbit.velocity, v3_scale_to(fv, aj));
        set_vel(set_vel(s, i, vi), j, vj)
    }
}

/// One pair update never changes how many bodies there are.
pub proof fn lemma_pair_v_len(s: Seq<Celestial>, i: int, j: int, dt: Fx)
    ensures
        pair_v(s, i, j, dt).len() == s.len(),
{
    reveal(pair_v);
}

#[via_fn]
proof fn inner_s_dec(s: Seq<Celestial>, i: int, j: int, dt: Fx) {
    if j < s.len() {
        lemma_pair_v_len(s, i, j, dt);
    }
}

#[via_fn]
proof fn inner_r_dec(s: Seq<Celestial>, i: int, j: int, dt: Fx) {
    if j < s.len() {
        lemma_pair_v_len(s, i, j, dt);
    }
}

/// The state after the inner pass of body `i` from partner `j` on.
pub open spec fn inner_s(s: Seq<Celestial>, i: int, j: int, dt: Fx) -> Seq<Celestial>
    decreases s.len() - j,
        via inner_s_dec
{
    if j >= s.len() {
        s
    } else {
        inner_s(pair_v(s, i, j, dt), i, j + 1, dt)
    }
}

/// The collision reports of the inner pass of body `i` from partner `j` on,
/// in traversal order; each pair is examined against the state it sees.
pub open spec fn inner_r(s: Seq<Celestial>, i: int, j: int, dt: Fx) -> Seq<Collision>
    decreases s.len() - j,
        via inner_r_dec
{
    if j >= s.len() {
        Seq::empty()
    } else {
        let here = if collides_v(s, i, j) {
            seq![Collision { first: i as usize, second: j as usize }]
        } else {
            Seq::empty()
        };
        here + inner_r(pair_v(s, i, j, dt), i, j + 1, dt)
    }
}

/// An inner pass never changes how many bodies there are.
pub proof fn lemma_inner_s_len(s: Seq<Celestial>, i: int, j: int, dt: Fx)
    ensures
        inner_s(s, i, j, dt).len() == s.len(),
    decreases s.len() - j,
{
    if j < s.len() {
        lemma_pair_v_len(s, i, j, dt);
        lemma_inner_s_len(pair_v(s, i, j, dt), i, j + 1, dt);
    }
}

#[via_fn]
proof fn outer_s_dec(s: Seq<Celestial>, i: int, dt: Fx) {
    if 0 <= i < s.len() {
        lemma_inner_s_len(s, i, i + 1, dt);
    }
}

#[via_fn]
proof fn outer_r_dec(s: Seq<Celestial>, i: int, dt: Fx) {
    if 0 <= i < s.len() {
        lemma_inner_s_len(s, i, i + 1, dt);
    }
}

/// The state after the outer pass from body `i` on: each body's inner pass,
/// then its position advanced by `dt` times its updated velocity.
pub open spec fn outer_s(s: Seq<Celestial>, i: int, dt: Fx) -> Seq<Celestial>
    decreases s.len() - i,
        via outer_s_dec
{
    if i < 0 || i >= s.len() {
        s
    } else {
        let s1 = inner_s(s, i, i + 1, dt);
        let s2 = set_pos(
            s1,
            i,
            v3_add(s1[i].orbit.position, v3_scale_by(s1[i].orbit.velocity, dt)),
        );
        outer_s(s2, i + 1, dt)
    }
}

/// The collision reports of the outer pass from body `i` on.
pub open spec fn outer_r(s: Seq<Celestial>, i: int, dt: Fx) -> Seq<Collision>
    decreases s.len() - i,
        via outer_r_dec
{
    if i < 0 || i >= s.len() {
        Seq::empty()
    } else {
        let s1 = inner_s(s, i, i + 1, dt);
        let s2 = set_pos(
            s1,
            i,
            v3_add(s1[i].orbit.position, v3_scale_by(s1[i].orbit.velocity, dt)),
        );
        inner_r(s, i, i + 1, dt) + outer_r(s2, i + 1, dt)
    }
}

/// What one call of [`nbody_step`] does to the bodies.
pub open spec fn step_s(s: Seq<Celestial>, dt: Fx) -> Seq<Celestial> {
    outer_s(s, 0, dt)
}

/// The collision reports of one call of [`nbody_step`].
pub open spec fn step_r(s: Seq<Celestial>, dt: Fx) -> Seq<Collision> {
    outer_r(s, 0, dt)
}

/// Force-law symmetry: two equal-mass bodies placed symmetrically about the
/// origin with opposite velocities are still symmetric about the origin after
/// a step. The precondition is re-established by the conclusion, so symmetry
/// holds after any number of steps by induction.
pub proof fn lemma_two_body_symmetry(s: Seq<Celestial>, dt: Fx)
    requires
        s.len() == 2,
        s[1].mass == s[0].mass,
        s[1].orbit.position == v3_neg(s[0].orbit.position),
        s[1].orbit.velocity == v3_neg(s[0].orbit.velocity),
    ensures
        step_s(s, dt).len() == 2,
        step_s(s, dt)[1].mass == step_s(s, dt)[0].mass,
        step_s(s, dt)[1].orbit.position == v3_neg(step_s(s, dt)[0].orbit.position),
        step_s(s, dt)[1].orbit.velocity == v3_neg(step_s(s, dt)[0].orbit.velocity),
{
    reveal(pair_v);
    let p0 = s[0].orbit.position;
    let v0 = s[0].orbit.velocity;
    let d = v3_dist(p0, v3_neg(p0));
    let r2 = Fx::mul_v(d, d);
    let sa = pair_v(s, 0, 1, dt);
    assert(inner_s(s, 0, 1, dt) == inner_s(sa, 0, 2, dt));
    assert(inner_s(sa, 0, 2, dt) == sa);
    if r2.m == 0 {
        assert(sa == s);
    } else {
        let ai = Fx::mul_v(dt, Fx::div_v(grav_param_v(s[1].mass), r2));
        let u = v3_scale_to(v3_sub(p0, v3_neg(p0)), ai);
        assert(sa[0].orbit.velocity == v3_sub(v0, u));
        assert(sa[1].orbit.velocity == v3_add(v3_neg(v0), u));
        crate::vec3::lemma_v3_add_neg_sub(v0, u);
        assert(sa[1].orbit.velocity == v3_neg(sa[0].orbit.velocity));
        assert(sa[0].orbit.position == p0);
        assert(sa[1].orbit.position == v3_neg(p0));
    }
    // outer pass: body 0's position advances, then body 1's (empty inner).
    let w0 = sa[0].orbit.velocity;
    let q0 = v3_add(sa[0].orbit.position, v3_scale_by(w0, dt));
    let sb = set_pos(sa, 0, q0);
    assert(outer_s(s, 0, dt) == outer_s(sb, 1, dt));
    assert(inner_s(sb, 1, 2, dt) == sb);
    let q1 = v3_add(sb[1].orbit.position, v3_scale_by(sb[1].orbit.velocity, dt));
    let sc = set_pos(sb, 1, q1);
    assert(outer_s(sb, 1, dt) == outer_s(sc, 2, dt));
    assert(outer_s(sc, 2, dt) == sc);
    crate::vec3::lemma_v3_scale_by_neg(w0, dt);
    crate::vec3::lemma_v3_add_neg(sa[0].orbit.position, v3_scale_by(w0, dt));
    assert(q1 == v3_neg(q0));
    assert(step_s(s, dt) == sc);
}

/// Collision reporting in a two-body system: one step reports the pair
/// exactly when, at the moment the pair is examined (before any update of
/// the pass), the separation is below the sum of the radii — and reports
/// nothing else.
pub proof fn lemma_two_body_collision_report(s: Seq<Celestial>, dt: Fx)
    requires
        s.len() == 2,
    ensures
        collides_v(s, 0, 1) ==> step_r(s, dt) =~= seq![Collision { first: 0, second: 1 }],
        !collides_v(s, 0, 1) ==> step_r(s, dt) =~= Seq::<Collision>::empty(),
{
    lemma_pair_v_len(s, 0, 1, dt);
    let sa = pair_v(s, 0, 1, dt);
    assert(inner_r(sa, 0, 2, dt) =~= Seq::<Collision>::empty());
    let s1 = inner_s(s, 0, 1, dt);
    assert(inner_s(s, 0, 1, dt) == inner_s(sa, 0, 2, dt));
    assert(inner_s(sa, 0, 2, dt) == sa);
    assert(s1 == sa);
    let s2 = set_pos(s1, 0, v3_add(s1[0].orbit.position, v3_scale_by(s1[0].orbit.velocity, dt)));
    assert(inner_r(s2, 1, 2, dt) =~= Seq::<Collision>::empty());
    let s2b = set_pos(
        inner_s(s2, 1, 2, dt),
        1,
        v3_add(
            inner_s(s2, 1, 2, dt)[1].orbit.position,
            v3_scale_by(inner_s(s2, 1, 2, dt)[1].orbit.velocity, dt),
        ),
    );
    assert(outer_r(s2b, 2, dt) =~= Seq::<Collision>::empty());
    assert(outer_r(s2, 1, dt) =~= Seq::<Collision>::empty());
    if collides_v(s, 0, 1) {
        assert(inner_r(s, 0, 1, dt) =~= seq![Collision { first: 0, second: 1 }]);
        assert(step_r(s, dt) =~= seq![Collision { first: 0, second: 1 }]);
    } else {
        assert(inner_r(s, 0, 1, dt) =~= Seq::<Collision>::empty());
        assert(step_r(s, dt) =~= Seq::<Collision>::empty());
    }
}

/// Advance all bodies in place by one time step `delta_t` under mutual
/// Newtonian gravity, returning the collision reports of this pass.
#[verifier::rlimit(100)]
pub fn nbody_step(celestials: &mut Vec<Celestial>, delta_t: Fx) -> (reports: Vec<Collision>)
    ensures
        final(celestials)@ == step_s(old(celestials)@, delta_t),
        reports@ == step_r(old(celestials)@, delta_t),
{
    let ghost s0 = celestials@;
    let mut reports: Vec<Collision> = Vec::new();
    let n = celestials.len();
    let mut i: usize = 0;
    while i < n
        invariant
            n == celestials@.len(),
            i <= n,
            outer_s(s0, 0, delta_t) == outer_s(celestials@, i as int, delta_t),
            outer_r(s0, 0, delta_t) == reports@ + outer_r(celestials@, i as int, delta_t),
        decreases n - i,
    {
        let ghost s_enter = celestials@;
        let ghost r_enter = reports@;
        let mut j: usize = i + 1;
        while j < n
            invariant
                i < n,
                n == celestials@.len(),
                i + 1 <= j <= n,
                inner_s(s_enter, i as int, i + 1, delta_t) == inner_s(
                    celestials@,
                    i as int,
                    j as int,
                    delta_t,
                ),
                r_enter + inner_r(s_enter, i as int, i + 1, delta_t) == reports@ + inner_r(
                    celestials@,
                    i as int,
                    j as int,
                    delta_t,
                ),
                outer_s(s0, 0, delta_t) == outer_s(s_enter, i as int, delta_t),
                outer_r(s0, 0, delta_t) == r_enter + outer_r(s_enter, i as int, delta_t),
            decreases n - j,
        {
            let ghost s_pre = celestials@;
            let pi = celestials[i].orbit.position;
            let pj = celestials[j].orbit.position;
            let d = pi.pythagoras(&pj);
            let r2 = d.mul(d);
            if d.lt(celestials[i].radius.add(celestials[j].radius)) {
                reports.push(Collision { first: i, second: j });
            }
            if r2.m != 0 {
                let fv = pi.sub(&pj);
                let ai = delta_t.mul(grav_param(celestials[j].mass).div(r2));
                let aj = delta_t.mul(grav_param(celestials[i].mass).div(r2));
                let vi = celestials[i].orbit.velocity.sub(&fv.scale_to(ai));
                let vj = celestials[j].orbit.velocity.add(&fv.scale_to(aj));
                celestials[i].orbit.velocity = vi;
                celestials[j].orbit.velocity = vj;
                proof {
                    reveal(pair_v);
                    assert(celestials@ =~= pair_v(s_pre, i as int, j as int, delta_t));
                }
            } else {
                proof {
                    reveal(pair_v);
                    assert(celestials@ =~= pair_v(s_pre, i as int, j as int, delta_t));
                }
            }
            j = j + 1;
            proof {
                reveal(collides_v);
                assert(celestials@ == pair_v(s_pre, i as int, (j - 1) as int, delta_t));
                assert(r_enter + inner_r(s_enter, i as int, i + 1, delta_t) =~= reports@
                    + inner_r(celestials@, i as int, j as int, delta_t));
            }
        }
        let newpos = celestials[i].orbit.position.add(
            &celestials[i].orbit.velocity.scale_by(delta_t),
        );
        celestials[i].orbit.position = newpos;
        proof {
            assert(celestials@ =~= set_pos(
                inner_s(s_enter, i as int, i + 1, delta_t),
                i as int,
                v3_add(
                    inner_s(s_enter, i as int, i + 1, delta_t)[i as int].orbit.position,
                    v3_scale_by(
                        inner_s(s_enter, i as int, i + 1, delta_t)[i as int].orbit.velocity,
                        delta_t,
                    ),
                ),
            ));
        }
        i = i + 1;
        proof {
            assert(outer_r(s0, 0, delta_t) =~= reports@ + outer_r(celestials@, i as int, delta_t));
        }
    }
    reports
}

} // verus!
