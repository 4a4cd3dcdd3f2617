use physics::rational::Rat;

#[test]
fn zero_denominator_is_rejected() {
    assert!(Rat::new(1, 0).is_none());
    assert!(Rat::new(0, 0).is_none());
}

#[test]
fn negative_denominator_normalizes() {
    let a = Rat::new(1, -2).unwrap();
    let b = Rat::new(-1, 2).unwrap();
    assert!(a.eq_val(&b));
    assert_eq!(a.den(), 2);
}

#[test]
fn value_equality_ignores_representation() {
    let a = Rat::new(1, 2).unwrap();
    let b = Rat::new(3, 6).unwrap();
    let c = Rat::new(2, 3).unwrap();
    assert!(a.eq_val(&b));
    assert!(!a.eq_val(&c));
}

#[test]
fn division_by_zero_is_rejected() {
    let a = Rat::new(5, 3).unwrap();
    let zero = Rat::zero();
    assert!(a.div(&zero).is_none());
}

#[test]
fn overflow_is_reported() {
    let big = Rat::from_parts(i64::MAX, 1);
    assert!(big.mul(&big).is_none());
    assert!(big.add(&Rat::one()).is_none());
}

#[test]
fn exact_arithmetic() {
    let third = Rat::new(1, 3).unwrap();
    let sixth = Rat::new(1, 6).unwrap();
    let half = Rat::new(1, 2).unwrap();
    assert!(third.add(&sixth).unwrap().eq_val(&half));
    assert!(half.sub(&third).unwrap().eq_val(&sixth));
    assert!(half.mul(&third).unwrap().eq_val(&sixth));
    assert!(sixth.div(&third).unwrap().eq_val(&half));
    assert!(third.neg().eq_val(&Rat::new(-1, 3).unwrap()));
}
