use physics::force::Moment;
use physics::rational::Rat;
use physics::vector::Vec3;

fn r(n: i64, d: i64) -> Rat {
    Rat::new(n, d).unwrap()
}

fn v(x: i64, y: i64, z: i64) -> Vec3 {
    Vec3::new(r(x, 1), r(y, 1), r(z, 1))
}

fn assert_v3_eq(a: &Vec3, b: &Vec3) {
    assert!(a.eq_val(b), "expected equal vectors");
}

#[test]
fn force() {
    let vs = [
        v(0, 0, 0),
        v(1, 0, 0),
        v(0, 1, 0),
        v(0, 0, 1),
        v(-1, 0, 0),
        v(0, -1, 0),
        v(0, 0, -1),
    ];
    for w in vs.iter() {
        let f = Moment::from_force(*w);
        assert_v3_eq(&f.get_force().unwrap().0, w);

        let f = Moment::new(*w, *w);
        assert_v3_eq(&f.get_force().unwrap().0, w);
    }

    let f = Moment::new(v(1, 0, 0), v(1, 1, 1));
    assert_v3_eq(&f.get_force().unwrap().0, &v(1, 0, 0));
}

#[test]
fn torque() {
    assert_v3_eq(
        &Moment::new(v(0, 1, 0), v(0, 0, 1)).get_torque().unwrap().0,
        &v(1, 0, 0),
    );
    assert_v3_eq(
        &Moment::new(v(1, 0, 0), v(0, 1, 0)).get_torque().unwrap().0,
        &v(0, 0, 1),
    );
    assert_v3_eq(
        &Moment::new(v(1, 0, 0), v(0, 0, 1)).get_torque().unwrap().0,
        &v(0, -1, 0),
    );
}

#[test]
fn force_torque() {
    let get_torque = |offset: Vec3, force: Vec3| Moment::new(offset, force).get_torque().unwrap().0;

    assert_v3_eq(&get_torque(v(0, 0, 1), v(1, 1, 1)), &v(-1, 1, 0));

    // no offset or force, always no torque
    assert_v3_eq(&get_torque(v(0, 1, 0), v(0, 0, 0)), &v(0, 0, 0));
    assert_v3_eq(&get_torque(v(0, 0, 0), v(0, 1, 0)), &v(0, 0, 0));

    // radial force, always no torque
    assert_v3_eq(&get_torque(v(0, 1, 0), v(0, 1, 0)), &v(0, 0, 0));
    assert_v3_eq(&get_torque(v(1, 0, 0), v(1, 0, 0)), &v(0, 0, 0));
    assert_v3_eq(&get_torque(v(0, 0, 1), v(0, 0, 1)), &v(0, 0, 0));

    // simple unit length cross product
    assert_v3_eq(&get_torque(v(0, 1, 0), v(0, 0, 1)), &v(1, 0, 0));
    assert_v3_eq(&get_torque(v(1, 0, 0), v(0, 1, 0)), &v(0, 0, 1));
    assert_v3_eq(&get_torque(v(1, 0, 0), v(0, 0, 1)), &v(0, -1, 0));

    // double force or offset, double torque
    assert_v3_eq(&get_torque(v(0, 1, 0), v(0, 0, 2)), &v(2, 0, 0));
    assert_v3_eq(&get_torque(v(0, 2, 0), v(0, 0, 1)), &v(2, 0, 0));
}

#[test]
fn fractional_scaling() {
    // scaling by one half scales the torque by one half
    let half = r(1, 2);
    let offset = Vec3::new(half, r(0, 1), r(0, 1));
    let t = Moment::new(offset, v(0, 1, 0)).get_torque().unwrap().0;
    let expected = Vec3::new(r(0, 1), r(0, 1), half);
    assert_v3_eq(&t, &expected);
}

#[test]
fn radial_pull_keeps_direction() {
    // a pure radial pull along a skew axis: no torque, force is the input
    let w = v(3, -2, 5);
    let m = Moment::new(w, w);
    let (t, f) = m.get_parts().unwrap();
    assert_v3_eq(&t.0, &v(0, 0, 0));
    assert_v3_eq(&f.0, &w);
}
