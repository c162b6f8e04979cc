use kerbolar::fixed::Fx;
use kerbolar::vec3::V3;
use kerbolar::kepler::KeplerError;
use kerbolar::kepler::StateVectors;
use kerbolar::system::grav_param;
use kerbolar::system::kerbolar_system;
use kerbolar::system::Celestial;
use kerbolar::nbody::nbody_step;
use kerbolar::kepler::mean_anomaly_to_true;

const SCALE_F: f64 = 4294967296.0;

fn f(x: Fx) -> f64 {
    (x.m as f64) / SCALE_F
}

fn v3f(v: &V3<Fx>) -> (f64, f64, f64) {
    (f(v.x), f(v.y), f(v.z))
}

fn magf(v: &V3<Fx>) -> f64 {
    let (x, y, z) = v3f(v);
    (x * x + y * y + z * z).sqrt()
}

fn fxv(x: f64) -> Fx {
    Fx::from_ratio((x * 1000.0).round() as i128, 1000)
}

#[test]
fn distance_is_symmetric() {
    let a = V3 { x: Fx::from_int(1), y: Fx::from_int(2), z: Fx::from_int(3) };
    let b = V3 { x: Fx::from_int(4), y: Fx::from_int(6), z: Fx::from_int(8) };
    let d_ab = a.pythagoras(&b);
    let d_ba = b.pythagoras(&a);
    assert_eq!(d_ab.m, d_ba.m);
    let expected = (9.0f64 + 16.0 + 25.0).sqrt();
    assert!((f(d_ab) - expected).abs() < 1.0e-6);
}

#[test]
fn scale_to_reaches_requested_magnitude() {
    let v = V3 { x: Fx::from_int(3), y: Fx::from_int(4), z: Fx::from_int(0) };
    let s = v.scale_to(Fx::from_int(10));
    assert!((magf(&s) - 10.0).abs() < 1.0e-6);
    assert!((f(s.x) - 6.0).abs() < 1.0e-6);
    assert!((f(s.y) - 8.0).abs() < 1.0e-6);
    let big = V3 { x: Fx::from_int(-7), y: Fx::from_int(2), z: Fx::from_int(11) };
    let t = big.scale_to(Fx::from_int(3));
    assert!((magf(&t) - 3.0).abs() < 1.0e-5);
}

#[test]
fn scale_to_of_zero_vector_is_zero() {
    let z = V3 { x: Fx::zero(), y: Fx::zero(), z: Fx::zero() };
    let s = z.scale_to(Fx::from_int(42));
    assert_eq!(s.x.m, 0);
    assert_eq!(s.y.m, 0);
    assert_eq!(s.z.m, 0);
}

#[test]
fn circular_orbit_has_constant_radius_and_speed() {
    let gm = grav_param(Fx::from_int(1_000_000_000_000_000_000_000_000));
    let sma = Fx::from_int(1_000_000_000);
    let speed_expected = (f(gm) / 1.0e9).sqrt();
    for ma_milli in [0i128, 500, 1000, 2000, 3000, 5000] {
        let sv = StateVectors::from_keplerian(
            gm,
            sma,
            Fx::zero(),
            Fx::zero(),
            Fx::zero(),
            Fx::zero(),
            Fx::from_ratio(ma_milli, 1000),
        )
        .expect("circular orbit must convert");
        let r = magf(&sv.position);
        let v = magf(&sv.velocity);
        assert!((r - 1.0e9).abs() / 1.0e9 < 1.0e-3, "radius {r} at ma {ma_milli}");
        assert!(
            (v - speed_expected).abs() / speed_expected < 1.0e-2,
            "speed {v} vs {speed_expected} at ma {ma_milli}"
        );
    }
}

#[test]
fn composition_is_associative() {
    let mk = |a: i128, b: i128| StateVectors {
        position: V3 { x: Fx::from_int(a), y: Fx::from_int(b), z: Fx::from_int(a + b) },
        velocity: V3 { x: Fx::from_int(b), y: Fx::from_int(a), z: Fx::from_int(a - b) },
    };
    let child = mk(10, -3);
    let parent = mk(-200, 47);
    let grand = mk(12345, 678);
    let through_parent = child.relative_to(&parent.relative_to(&grand));
    let summed_offsets = child.relative_to(&parent).relative_to(&grand);
    assert_eq!(through_parent.position.x.m, summed_offsets.position.x.m);
    assert_eq!(through_parent.position.y.m, summed_offsets.position.y.m);
    assert_eq!(through_parent.position.z.m, summed_offsets.position.z.m);
    assert_eq!(through_parent.velocity.x.m, summed_offsets.velocity.x.m);
    assert_eq!(through_parent.velocity.y.m, summed_offsets.velocity.y.m);
    assert_eq!(through_parent.velocity.z.m, summed_offsets.velocity.z.m);
}

fn plain_body(name: &str, mass: i128, radius: i128, px: i128, vy: i128) -> Celestial {
    Celestial {
        name: name.to_owned(),
        colour: V3 { x: Fx::zero(), y: Fx::zero(), z: Fx::zero() },
        mass: Fx::from_int(mass),
        radius: Fx::from_int(radius),
        orbit: StateVectors {
            position: V3 { x: Fx::from_int(px), y: Fx::zero(), z: Fx::zero() },
            velocity: V3 { x: Fx::zero(), y: Fx::from_int(vy), z: Fx::zero() },
        },
    }
}

#[test]
fn symmetric_pair_stays_symmetric() {
    let m = 100_000_000_000_000_000_000i128;
    let mut bodies = vec![
        plain_body("west", m, 1, -1000, -1),
        plain_body("east", m, 1, 1000, 1),
    ];
    let dt = Fx::from_int(1);
    for _ in 0..25 {
        nbody_step(&mut bodies, dt);
        assert_eq!(bodies[1].orbit.position.x.m, -bodies[0].orbit.position.x.m);
        assert_eq!(bodies[1].orbit.position.y.m, -bodies[0].orbit.position.y.m);
        assert_eq!(bodies[1].orbit.position.z.m, -bodies[0].orbit.position.z.m);
        assert_eq!(bodies[1].orbit.velocity.x.m, -bodies[0].orbit.velocity.x.m);
        assert_eq!(bodies[1].orbit.velocity.y.m, -bodies[0].orbit.velocity.y.m);
        assert_eq!(bodies[1].orbit.velocity.z.m, -bodies[0].orbit.velocity.z.m);
    }
}

#[test]
fn two_body_energy_and_separation_stay_bounded() {
    let star_mass = Fx::from_int(1_000_000_000_000_000_000_000_000);
    let gm = grav_param(star_mass);
    let sv = StateVectors::from_keplerian(
        gm,
        Fx::from_int(1_000_000_000),
        Fx::zero(),
        Fx::zero(),
        Fx::zero(),
        Fx::zero(),
        Fx::zero(),
    )
    .expect("circular orbit must convert");
    let mut bodies = vec![
        plain_body("star", 1_000_000_000_000_000_000_000_000, 1, 0, 0),
        Celestial {
            name: "probe".to_owned(),
            colour: V3 { x: Fx::zero(), y: Fx::zero(), z: Fx::zero() },
            mass: Fx::from_int(1),
            radius: Fx::from_int(1),
            orbit: sv,
        },
    ];
    let gmf = f(gm);
    let sep0 = magf(&bodies[1].orbit.position);
    let e0 = 0.5 * magf(&bodies[1].orbit.velocity).powi(2) - gmf / sep0;
    let dt = Fx::from_int(60);
    for _ in 0..20_000 {
        nbody_step(&mut bodies, dt);
    }
    let sep = magf(&bodies[1].orbit.position);
    let e = 0.5 * magf(&bodies[1].orbit.velocity).powi(2) - gmf / sep;
    assert!((sep - sep0).abs() / sep0 < 0.01, "separation drifted to {sep}");
    assert!((e - e0).abs() / e0.abs() < 0.01, "energy drifted from {e0} to {e}");
}

#[test]
fn collision_reported_exactly_when_separation_first_below_radius_sum() {
    let mut bodies = vec![
        plain_body("left", 1, 5, -15, 0),
        plain_body("right", 1, 5, 15, 0),
    ];
    bodies[0].orbit.velocity = V3 { x: Fx::from_int(1), y: Fx::zero(), z: Fx::zero() };
    bodies[1].orbit.velocity = V3 { x: Fx::from_int(-1), y: Fx::zero(), z: Fx::zero() };
    let dt = Fx::from_int(1);
    // separation at the check of step k is 30 - 2k; it first drops below
    // 10 (= 5 + 5) at step 11, where it is 8.
    for step in 0..=11 {
        let reports = nbody_step(&mut bodies, dt);
        if step < 11 {
            assert!(reports.is_empty(), "early report at step {step}");
        } else {
            assert_eq!(reports.len(), 1);
            assert_eq!(reports[0].first, 0);
            assert_eq!(reports[0].second, 1);
        }
    }
}

#[test]
fn default_system_is_bit_identical_across_builds() {
    let first = kerbolar_system().expect("fixture must build");
    let second = kerbolar_system().expect("fixture must build");
    assert_eq!(first.len(), 17);
    assert_eq!(second.len(), 17);
    for (a, b) in first.iter().zip(second.iter()) {
        assert_eq!(a.name, b.name);
        assert_eq!(a.mass.m, b.mass.m);
        assert_eq!(a.radius.m, b.radius.m);
        assert_eq!(a.orbit.position.x.m, b.orbit.position.x.m);
        assert_eq!(a.orbit.position.y.m, b.orbit.position.y.m);
        assert_eq!(a.orbit.position.z.m, b.orbit.position.z.m);
        assert_eq!(a.orbit.velocity.x.m, b.orbit.velocity.x.m);
        assert_eq!(a.orbit.velocity.y.m, b.orbit.velocity.y.m);
        assert_eq!(a.orbit.velocity.z.m, b.orbit.velocity.z.m);
    }
}

#[test]
fn default_system_shape_and_orbits() {
    let bodies = kerbolar_system().expect("fixture must build");
    assert_eq!(bodies.len(), 17);
    assert_eq!(bodies[0].name, "Kerbol");
    assert_eq!(bodies[4].name, "Kerbin");
    assert_eq!(bodies[16].name, "Eeloo");
    // the root has the fixed zero state
    assert_eq!(bodies[0].orbit.position.x.m, 0);
    assert_eq!(bodies[0].orbit.position.y.m, 0);
    assert_eq!(bodies[0].orbit.position.z.m, 0);
    assert_eq!(bodies[0].orbit.velocity.x.m, 0);
    // Kerbin's orbit is circular: its distance from the star is its
    // semi-major axis, up to the rotation rounding.
    let r_kerbin = magf(&bodies[4].orbit.position);
    assert!((r_kerbin - 13_599_840_256.0).abs() / 13_599_840_256.0 < 1.0e-3);
    // Mun orbits Kerbin at its semi-major axis.
    let dx = f(bodies[5].orbit.position.x) - f(bodies[4].orbit.position.x);
    let dy = f(bodies[5].orbit.position.y) - f(bodies[4].orbit.position.y);
    let dz = f(bodies[5].orbit.position.z) - f(bodies[4].orbit.position.z);
    let r_mun = (dx * dx + dy * dy + dz * dz).sqrt();
    assert!((r_mun - 12_000_000.0).abs() / 12_000_000.0 < 1.0e-3, "mun at {r_mun}");
    // no two bodies start in collision
    let mut system = bodies;
    let reports = nbody_step(&mut system, Fx::from_int(1));
    assert!(reports.is_empty());
}

#[test]
fn degenerate_elements_are_rejected() {
    let gm = grav_param(Fx::from_int(1_000_000_000_000_000_000_000_000));
    let r = StateVectors::from_keplerian(
        gm,
        Fx::zero(),
        Fx::zero(),
        Fx::zero(),
        Fx::zero(),
        Fx::zero(),
        Fx::zero(),
    );
    assert_eq!(r, Err(KeplerError::DegenerateVector));
}

#[test]
fn unreachable_tolerance_is_a_convergence_failure() {
    // a tolerance below every representable residual can never be met, so
    // the bounded solve must give up rather than loop forever
    let tol = Fx { m: -170141183460469231731687303715884105727 };
    let r = mean_anomaly_to_true(fxv(3.14), fxv(0.2), tol);
    assert_eq!(r, Err(KeplerError::ConvergenceFailure));
}

#[test]
fn true_anomaly_matches_mean_anomaly_for_circular_orbit() {
    let ta = mean_anomaly_to_true(Fx::from_ratio(1000, 1000), Fx::zero(), Fx { m: 1 })
        .expect("circular solve converges");
    assert!((f(ta) - 1.0).abs() < 1.0e-3, "true anomaly {}", f(ta));
}
