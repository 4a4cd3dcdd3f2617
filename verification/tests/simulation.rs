use physics::components::{Accelerator, AngularVelocity, SimulationBundle, Spatial, Velocity};
use physics::force::Moment;
use physics::inertia::Inertia;
use physics::matrix::Mat3;
use physics::quaternion::Quat;
use physics::rational::Rat;
use physics::simulation::{SimulatiorPlugin, tick, update_simulated};
use physics::vector::Vec3;

fn r(n: i64, d: i64) -> Rat {
    Rat::new(n, d).unwrap()
}

fn v(x: i64, y: i64, z: i64) -> Vec3 {
    Vec3::new(r(x, 1), r(y, 1), r(z, 1))
}

fn unit_cylinder() -> Inertia {
    let one = r(1, 1);
    Inertia::cylinder_x(&one, &one, &one).unwrap()
}

#[test]
fn pure_translation() {
    // zero acceleration over delta t: position moves by velocity * t,
    // velocity unchanged
    let mut spatial = Spatial::origin();
    let mut vel = Velocity(v(3, -1, 2));
    let mut angvel = AngularVelocity::zero();
    let inertia = unit_cylinder();
    let delta = r(5, 1);
    let ok = tick(&mut spatial, &mut vel, &mut angvel, &inertia, None, None, &delta);
    assert!(ok);
    assert!(spatial.position.eq_val(&v(15, -5, 10)));
    assert!(vel.0.eq_val(&v(3, -1, 2)));
    assert!(angvel.0.eq_val(&v(0, 0, 0)));
    assert!(spatial.orientation.eq_val(&Quat::identity()));
}

#[test]
fn constant_acceleration_substeps() {
    // four sub-steps of a quarter second each: the velocity gained is
    // exactly acceleration * 1 s, independent of the sub-step count
    let a = Accelerator(v(0, -2, 0));
    let mut spatial = Spatial::origin();
    let mut vel = Velocity::zero();
    let mut angvel = AngularVelocity::zero();
    let inertia = unit_cylinder();
    let delta = r(1, 4);
    for _ in 0..4 {
        let ok = tick(&mut spatial, &mut vel, &mut angvel, &inertia, Some(&a), None, &delta);
        assert!(ok);
    }
    assert!(vel.0.eq_val(&v(0, -2, 0)));

    // one whole-second step gains exactly the same velocity
    let mut spatial1 = Spatial::origin();
    let mut vel1 = Velocity::zero();
    let mut angvel1 = AngularVelocity::zero();
    let one = r(1, 1);
    assert!(tick(&mut spatial1, &mut vel1, &mut angvel1, &inertia, Some(&a), None, &one));
    assert!(vel1.0.eq_val(&vel.0));
}

#[test]
fn zero_delta_is_noop() {
    let a = Accelerator(v(0, -2, 0));
    let m = Moment::new(v(0, 0, 1), v(0, 10, 0));
    let mut spatial = Spatial::origin();
    let mut vel = Velocity(v(1, 2, 3));
    let mut angvel = AngularVelocity(v(4, 5, 6));
    let inertia = unit_cylinder();
    let zero = Rat::zero();
    let ok = tick(&mut spatial, &mut vel, &mut angvel, &inertia, Some(&a), Some(&m), &zero);
    assert!(ok);
    assert!(spatial.position.eq_val(&v(0, 0, 0)));
    assert!(spatial.orientation.eq_val(&Quat::identity()));
    assert!(vel.0.eq_val(&v(1, 2, 3)));
    assert!(angvel.0.eq_val(&v(4, 5, 6)));
}

#[test]
fn torque_spins_body() {
    // a moment with offset z and force y produces torque about x and spins
    // the body about x only
    let m = Moment::new(v(0, 0, 1), v(0, 10, 0));
    let mut spatial = Spatial::origin();
    let mut vel = Velocity::zero();
    let mut angvel = AngularVelocity::zero();
    // the unit cylinder's moments in lowest terms: 1/2 about x, so torque
    // -10 about x gives angular acceleration -20 about x
    let inertia = Inertia(Mat3::diagonal(r(1, 2), r(1, 3), r(1, 3)));
    let one = r(1, 1);
    let ok = tick(&mut spatial, &mut vel, &mut angvel, &inertia, None, Some(&m), &one);
    assert!(ok);
    assert!(angvel.0.eq_val(&v(-20, 0, 0)));
    // orientation composed with a delta rotation about x: no longer the
    // identity, and the y/z vector parts stay zero
    assert!(!spatial.orientation.eq_val(&Quat::identity()));
    assert!(spatial.orientation.y.eq_val(&Rat::zero()));
    assert!(spatial.orientation.z.eq_val(&Rat::zero()));
}

#[test]
fn update_simulated_advances_all() {
    let inertia = unit_cylinder();
    let e1 = SimulationBundle::new(
        Velocity(v(1, 0, 0)),
        Accelerator::zero(),
        AngularVelocity::zero(),
        inertia,
    );
    let e2 = SimulationBundle::new(
        Velocity::zero(),
        Accelerator(v(0, -2, 0)),
        AngularVelocity::zero(),
        inertia,
    );
    let mut world = vec![e1, e2];
    let half = r(1, 2);
    let ok = update_simulated(&half, &mut world, None);
    assert!(ok);
    assert!(world[0].spatial.position.eq_val(&Vec3::new(half, Rat::zero(), Rat::zero())));
    assert!(world[0].vel.0.eq_val(&v(1, 0, 0)));
    assert!(world[1].vel.0.eq_val(&v(0, -1, 0)));
    // x = a t^2 / 2 = -2 * (1/2)^2 / 2 = -1/4
    assert!(world[1].spatial.position.eq_val(&Vec3::new(Rat::zero(), r(-1, 4), Rat::zero())));
}

#[test]
fn plugin_runs_one_frame() {
    let plugin = SimulatiorPlugin;
    let inertia = unit_cylinder();
    let e = SimulationBundle::new_with_gravity(Velocity::zero(), inertia);
    let mut world = vec![e];
    // -9.82 m/s^2 for one tenth of a second: -0.982 m/s
    let ok = plugin.run(&r(1, 10), &mut world, None);
    assert!(ok);
    assert!(world[0].vel.0.eq_val(&Vec3::new(Rat::zero(), r(-491, 500), Rat::zero())));
}

#[test]
fn gravity_value() {
    let g = Accelerator::gravity();
    assert!(g.0.y.eq_val(&r(-982, 100)));
    assert!(g.0.x.eq_val(&Rat::zero()));
    assert!(g.0.z.eq_val(&Rat::zero()));
}

#[test]
fn accelerate_velocity() {
    let mut vl = Velocity::zero();
    let a = Accelerator(v(1, 1, 1));
    assert!(vl.accelerate(&a, &r(5, 1)));
    assert!(vl.0.eq_val(&v(5, 5, 5)));
}

#[test]
fn velocity_arrows_skip_still_bodies() {
    let inertia = unit_cylinder();
    let moving = SimulationBundle::new(
        Velocity(v(1, 2, 3)),
        Accelerator::zero(),
        AngularVelocity::zero(),
        inertia,
    );
    let still = SimulationBundle::new(
        Velocity::zero(),
        Accelerator(v(0, -2, 0)),
        AngularVelocity::zero(),
        inertia,
    );
    let world = vec![still, moving, still];
    let arrows = physics::vector_arrows::velocity(&world).unwrap();
    assert_eq!(arrows.len(), 1);
    assert!(arrows[0].0.eq_val(&v(0, 0, 0)));
    assert!(arrows[0].1.eq_val(&v(1, 2, 3)));

    let acc_arrows = physics::vector_arrows::acceleration(&world).unwrap();
    assert_eq!(acc_arrows.len(), 2);
    assert!(acc_arrows[0].1.eq_val(&v(0, -2, 0)));
    assert!(acc_arrows[1].1.eq_val(&v(0, -2, 0)));
}
