use kerbolar::fixed::Fx;
use kerbolar::vec3::V3;
use kerbolar::system::grav_param;
use kerbolar::system::Celestial;
use kerbolar::kepler::StateVectors;
use kerbolar::nbody::nbody_step;

const CAP_M: i128 = 170141183460469231731687303715884105727;
const SCALE_M: i128 = 4294967296;

#[test]
fn exact_scalar_arithmetic() {
    assert_eq!(Fx::from_int(1).m, SCALE_M);
    assert_eq!(Fx::from_ratio(1, 2).m, 2147483648);
    assert_eq!(Fx::from_int(5).sub(Fx::from_int(3)).m, 2 * SCALE_M);
    assert_eq!(Fx::from_int(3).mul(Fx::from_int(4)).m, 12 * SCALE_M);
    assert_eq!(Fx::from_int(10).div(Fx::from_int(4)).m, 10737418240);
    assert_eq!(Fx::from_int(16).sqrt().m, 4 * SCALE_M);
    assert_eq!(Fx::from_int(-7).neg().m, 7 * SCALE_M);
    assert_eq!(Fx::from_int(2).div_int(3).m, (2 * SCALE_M) / 3);
}

#[test]
fn arithmetic_saturates_instead_of_overflowing() {
    let top = Fx { m: CAP_M };
    assert_eq!(top.add(top).m, CAP_M);
    assert_eq!(top.neg().add(top.neg()).m, -CAP_M);
    assert_eq!(top.mul(top).m, CAP_M);
    assert_eq!(Fx::from_int(i128::MAX).m, CAP_M);
    // the one mantissa below -CAP reads as -CAP
    assert_eq!(Fx { m: i128::MIN }.neg().m, CAP_M);
}

#[test]
fn exact_gravitational_parameter() {
    let m = Fx::from_int(1_000_000_000_000_000_000_000_000);
    // mass / 10^14 * 6674 on the mantissa, exactly
    assert_eq!(grav_param(m).m, 42949672960000000000i128 * 6674);
    assert_eq!(grav_param(Fx::zero()).m, 0);
}

#[test]
fn sine_and_cosine_at_zero_are_exact() {
    assert_eq!(kerbolar::trig::fsin(Fx::zero()).m, 0);
    assert_eq!(kerbolar::trig::fcos(Fx::zero()).m, SCALE_M);
    // pi/2 and pi, within the series truncation
    let half_pi = Fx { m: 6746518852 };
    let s = kerbolar::trig::fsin(half_pi).m as f64 / SCALE_M as f64;
    assert!((s - 1.0).abs() < 1.0e-4);
    let pi = Fx { m: 13493037704 };
    let c = kerbolar::trig::fcos(pi).m as f64 / SCALE_M as f64;
    assert!((c + 1.0).abs() < 1.0e-4);
}

fn still_body(name: &str, radius: i128, px: i128) -> Celestial {
    Celestial {
        name: name.to_owned(),
        colour: V3 { x: Fx::zero(), y: Fx::zero(), z: Fx::zero() },
        mass: Fx::from_int(1),
        radius: Fx::from_int(radius),
        orbit: StateVectors {
            position: V3 { x: Fx::from_int(px), y: Fx::zero(), z: Fx::zero() },
            velocity: V3 { x: Fx::zero(), y: Fx::zero(), z: Fx::zero() },
        },
    }
}

#[test]
fn step_of_empty_system_does_nothing() {
    let mut bodies: Vec<Celestial> = Vec::new();
    let reports = nbody_step(&mut bodies, Fx::from_int(1));
    assert!(bodies.is_empty());
    assert!(reports.is_empty());
}

#[test]
fn step_of_single_body_advances_it_linearly() {
    let mut bodies = vec![still_body("drifter", 1, 100)];
    bodies[0].orbit.velocity = V3 { x: Fx::from_int(3), y: Fx::from_int(-2), z: Fx::zero() };
    let reports = nbody_step(&mut bodies, Fx::from_int(10));
    assert!(reports.is_empty());
    assert_eq!(bodies[0].orbit.position.x.m, 130 * SCALE_M);
    assert_eq!(bodies[0].orbit.position.y.m, -20 * SCALE_M);
    assert_eq!(bodies[0].orbit.position.z.m, 0);
}

#[test]
fn collision_check_is_strict_at_the_boundary() {
    // separation exactly equal to the radius sum is not a collision
    let mut touching = vec![still_body("a", 5, -5), still_body("b", 5, 5)];
    assert!(nbody_step(&mut touching, Fx::zero()).is_empty());
    let mut overlapping = vec![still_body("c", 5, -4), still_body("d", 5, 4)];
    let reports = nbody_step(&mut overlapping, Fx::zero());
    assert_eq!(reports.len(), 1);
    assert_eq!((reports[0].first, reports[0].second), (0, 1));
}
