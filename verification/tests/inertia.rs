use physics::force::Torque;
use physics::inertia::Inertia;
use physics::matrix::Mat3;
use physics::rational::Rat;
use physics::vector::Vec3;

fn r(n: i64, d: i64) -> Rat {
    Rat::new(n, d).unwrap()
}

fn assert_diag(i: &Inertia, d0: Rat, d1: Rat, d2: Rat) {
    assert!(i.0.r0.x.eq_val(&d0));
    assert!(i.0.r1.y.eq_val(&d1));
    assert!(i.0.r2.z.eq_val(&d2));
    let zero = Rat::zero();
    assert!(i.0.r0.y.eq_val(&zero));
    assert!(i.0.r0.z.eq_val(&zero));
    assert!(i.0.r1.x.eq_val(&zero));
    assert!(i.0.r1.z.eq_val(&zero));
    assert!(i.0.r2.x.eq_val(&zero));
    assert!(i.0.r2.y.eq_val(&zero));
}

#[test]
fn thin() {
    let h = r(4, 1);
    let rad = r(1, 2);
    let m = r(20, 1);
    let front = r(5, 2);
    let side = r(335, 12);

    assert_diag(&Inertia::cylinder_x(&h, &rad, &m).unwrap(), front, side, side);
    assert_diag(&Inertia::cylinder_y(&h, &rad, &m).unwrap(), side, front, side);
    assert_diag(&Inertia::cylinder_z(&h, &rad, &m).unwrap(), side, side, front);
}

#[test]
fn x_cylinder() {
    let one = r(1, 1);
    let cyl = Inertia::cylinder_x(&one, &one, &one).unwrap();
    assert_diag(&cyl, r(1, 2), r(1, 3), r(1, 3));
}

#[test]
fn y_cylinder() {
    let one = r(1, 1);
    let cyl = Inertia::cylinder_y(&one, &one, &one).unwrap();
    assert_diag(&cyl, r(1, 3), r(1, 2), r(1, 3));
}

#[test]
fn z_cylinder() {
    let one = r(1, 1);
    let cyl = Inertia::cylinder_z(&one, &one, &one).unwrap();
    assert_diag(&cyl, r(1, 3), r(1, 3), r(1, 2));
}

#[test]
fn inverse_round_trip() {
    // the inertia tensor applied to the angular acceleration of a torque
    // gives the torque back; the unit cylinder's moments in lowest terms
    let cyl = Inertia(Mat3::diagonal(r(1, 2), r(1, 3), r(1, 3)));
    let torque = Vec3::new(r(1, 1), r(2, 1), r(3, 1));
    let acc = cyl.get_angular_acceleration(&Torque(torque)).unwrap();
    let back = cyl.0.mul_vec(&acc).unwrap();
    assert!(back.eq_val(&torque));
}

#[test]
fn singular_tensor_is_rejected() {
    let zero = Rat::zero();
    let flat = Inertia(Mat3::diagonal(zero, Rat::one(), Rat::one()));
    let torque = Vec3::new(Rat::one(), Rat::one(), Rat::one());
    assert!(flat.get_angular_acceleration(&Torque(torque)).is_none());
}
