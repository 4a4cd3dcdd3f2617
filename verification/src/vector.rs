//! Exact 3-vectors.
//!
//! A `Vec3` carries three rational scalars in world or body coordinates.
//! The spec side works on `Frac3`, a triple of mathematical fractions, with
//! componentwise value equality `f3_eq`; dot and cross product are defined
//! directly on fractions.

use vstd::prelude::*;

use crate::rational::{
    Frac, Rat, frac_add, frac_div, frac_eq, frac_fits, frac_int, frac_is_zero, frac_mul, frac_sub,
    frac_wf, lemma_frac_add_assoc, lemma_frac_add_congruence, lemma_frac_add_zero,
    lemma_frac_div_wf, lemma_frac_eq_trans, lemma_frac_halves, lemma_frac_mul_congruence,
    lemma_frac_mul_zero, lemma_frac_ops_wf, lemma_frac_sub_congruence, lemma_frac_zero_eq,
};

verus! {

/// Mathematical value of a 3-vector: three fractions.
pub ghost struct Frac3 {
    pub x: Frac,
    pub y: Frac,
    pub z: Frac,
}

pub open spec fn f3_wf(v: Frac3) -> bool {
    frac_wf(v.x) && frac_wf(v.y) && frac_wf(v.z)
}

pub open spec fn f3_eq(a: Frac3, b: Frac3) -> bool {
    frac_eq(a.x, b.x) && frac_eq(a.y, b.y) && frac_eq(a.z, b.z)
}

pub open spec fn f3_zero() -> Frac3 {
    Frac3 { x: frac_int(0), y: frac_int(0), z: frac_int(0) }
}

pub open spec fn f3_is_zero(v: Frac3) -> bool {
    frac_is_zero(v.x) && frac_is_zero(v.y) && frac_is_zero(v.z)
}

pub open spec fn f3_add(a: Frac3, b: Frac3) -> Frac3 {
    Frac3 { x: frac_add(a.x, b.x), y: frac_add(a.y, b.y), z: frac_add(a.z, b.z) }
}

pub open spec fn f3_sub(a: Frac3, b: Frac3) -> Frac3 {
    Frac3 { x: frac_sub(a.x, b.x), y: frac_sub(a.y, b.y), z: frac_sub(a.z, b.z) }
}

pub open spec fn f3_scale(k: Frac, v: Frac3) -> Frac3 {
    Frac3 { x: frac_mul(k, v.x), y: frac_mul(k, v.y), z: frac_mul(k, v.z) }
}

pub open spec fn f3_dot(a: Frac3, b: Frac3) -> Frac {
    frac_add(frac_add(frac_mul(a.x, b.x), frac_mul(a.y, b.y)), frac_mul(a.z, b.z))
}

pub open spec fn f3_cross(a: Frac3, b: Frac3) -> Frac3 {
    Frac3 {
        x: frac_sub(frac_mul(a.y, b.z), frac_mul(a.z, b.y)),
        y: frac_sub(frac_mul(a.z, b.x), frac_mul(a.x, b.z)),
        z: frac_sub(frac_mul(a.x, b.y), frac_mul(a.y, b.x)),
    }
}

/// All componentwise sums stay in the machine range.
pub open spec fn f3_add_fits(a: Frac3, b: Frac3) -> bool {
    frac_fits(frac_add(a.x, b.x)) && frac_fits(frac_add(a.y, b.y)) && frac_fits(
        frac_add(a.z, b.z),
    )
}

pub open spec fn f3_sub_fits(a: Frac3, b: Frac3) -> bool {
    frac_fits(frac_sub(a.x, b.x)) && frac_fits(frac_sub(a.y, b.y)) && frac_fits(
        frac_sub(a.z, b.z),
    )
}

pub open spec fn f3_scale_fits(k: Frac, v: Frac3) -> bool {
    frac_fits(frac_mul(k, v.x)) && frac_fits(frac_mul(k, v.y)) && frac_fits(frac_mul(k, v.z))
}

/// Every intermediate of the left-to-right dot product stays in range.
pub open spec fn f3_dot_fits(a: Frac3, b: Frac3) -> bool {
    &&& frac_fits(frac_mul(a.x, b.x))
    &&& frac_fits(frac_mul(a.y, b.y))
    &&& frac_fits(frac_mul(a.z, b.z))
    &&& frac_fits(frac_add(frac_mul(a.x, b.x), frac_mul(a.y, b.y)))
    &&& frac_fits(frac_add(frac_add(frac_mul(a.x, b.x), frac_mul(a.y, b.y)), frac_mul(a.z, b.z)))
}

pub open spec fn f3_cross_fits(a: Frac3, b: Frac3) -> bool {
    &&& frac_fits(frac_mul(a.y, b.z))
    &&& frac_fits(frac_mul(a.z, b.y))
    &&& frac_fits(frac_sub(frac_mul(a.y, b.z), frac_mul(a.z, b.y)))
    &&& frac_fits(frac_mul(a.z, b.x))
    &&& frac_fits(frac_mul(a.x, b.z))
    &&& frac_fits(frac_sub(frac_mul(a.z, b.x), frac_mul(a.x, b.z)))
    &&& frac_fits(frac_mul(a.x, b.y))
    &&& frac_fits(frac_mul(a.y, b.x))
    &&& frac_fits(frac_sub(frac_mul(a.x, b.y), frac_mul(a.y, b.x)))
}

/// An exact 3-vector of rational scalars.
#[derive(Clone, Copy, Debug)]
pub struct Vec3 {
    pub x: Rat,
    pub y: Rat,
    pub z: Rat,
}

impl View for Vec3 {
    type V = Frac3;

    open spec fn view(&self) -> Frac3 {
        Frac3 { x: self.x@, y: self.y@, z: self.z@ }
    }
}

impl Vec3 {
    pub open spec fn wf(&self) -> bool {
        self.x.wf() && self.y.wf() && self.z.wf()
    }

    /// Publishes that a well-formed vector has a well-formed fraction triple.
    pub proof fn lemma_wf_frac(&self)
        requires
            self.wf(),
        ensures
            f3_wf(self@),
    {
        self.x.lemma_wf_frac();
        self.y.lemma_wf_frac();
        self.z.lemma_wf_frac();
    }

    pub fn new(x: Rat, y: Rat, z: Rat) -> (r: Vec3)
        ensures
            r == (Vec3 { x, y, z }),
    {
        Vec3 { x, y, z }
    }

    /// The zero vector.
    pub fn zero() -> (r: Vec3)
        ensures
            r.wf(),
            r@ == f3_zero(),
    {
        Vec3 { x: Rat::zero(), y: Rat::zero(), z: Rat::zero() }
    }

    /// Whether every component is exactly zero.
    pub fn is_zero(&self) -> (r: bool)
        requires
            self.wf(),
        ensures
            r == f3_is_zero(self@),
    {
        self.x.is_zero() && self.y.is_zero() && self.z.is_zero()
    }

    /// Exact componentwise value equality.
    pub fn eq_val(&self, rhs: &Vec3) -> (r: bool)
        requires
            self.wf(),
            rhs.wf(),
    ensures
            r == f3_eq(self@, rhs@),
    {
        self.x.eq_val(&rhs.x) && self.y.eq_val(&rhs.y) && self.z.eq_val(&rhs.z)
    }

    /// Exact componentwise sum.
    pub fn add(&self, rhs: &Vec3) -> (r: Option<Vec3>)
        requires
            self.wf(),
            rhs.wf(),
        ensures
            r matches Some(v) ==> v.wf() && v@ == f3_add(self@, rhs@),
            r is Some <==> f3_add_fits(self@, rhs@),
    {
        let x = self.x.add(&rhs.x)?;
        let y = self.y.add(&rhs.y)?;
        let z = self.z.add(&rhs.z)?;
        Some(Vec3 { x, y, z })
    }

    /// Exact componentwise difference.
    pub fn sub(&self, rhs: &Vec3) -> (r: Option<Vec3>)
        requires
            self.wf(),
            rhs.wf(),
        ensures
            r matches Some(v) ==> v.wf() && v@ == f3_sub(self@, rhs@),
            r is Some <==> f3_sub_fits(self@, rhs@),
    {
        let x = self.x.sub(&rhs.x)?;
        let y = self.y.sub(&rhs.y)?;
        let z = self.z.sub(&rhs.z)?;
        Some(Vec3 { x, y, z })
    }

    /// Exact scaling by a scalar.
    pub fn scale(&self, k: &Rat) -> (r: Option<Vec3>)
        requires
            self.wf(),
            k.wf(),
        ensures
            r matches Some(v) ==> v.wf() && v@ == f3_scale(k@, self@),
            r is Some <==> f3_scale_fits(k@, self@),
    {
        let x = k.mul(&self.x)?;
        let y = k.mul(&self.y)?;
        let z = k.mul(&self.z)?;
        Some(Vec3 { x, y, z })
    }

    /// Exact dot product.
    pub fn dot(&self, rhs: &Vec3) -> (r: Option<Rat>)
        requires
            self.wf(),
            rhs.wf(),
        ensures
            r matches Some(v) ==> v.wf() && v@ == f3_dot(self@, rhs@),
            r is Some <==> f3_dot_fits(self@, rhs@),
    {
        let mx = self.x.mul(&rhs.x)?;
        let my = self.y.mul(&rhs.y)?;
        let mz = self.z.mul(&rhs.z)?;
        let s = mx.add(&my)?;
        s.add(&mz)
    }

    /// Exact cross product.
    pub fn cross(&self, rhs: &Vec3) -> (r: Option<Vec3>)
        requires
            self.wf(),
            rhs.wf(),
        ensures
            r matches Some(v) ==> v.wf() && v@ == f3_cross(self@, rhs@),
            r is Some <==> f3_cross_fits(self@, rhs@),
    {
        let x = self.y.mul(&rhs.z)?.sub(&self.z.mul(&rhs.y)?)?;
        let y = self.z.mul(&rhs.x)?.sub(&self.x.mul(&rhs.z)?)?;
        let z = self.x.mul(&rhs.y)?.sub(&self.y.mul(&rhs.x)?)?;
        Some(Vec3 { x, y, z })
    }
}

/// Componentwise congruence: vector sums respect value equality.
pub proof fn lemma_f3_add_congruence(a: Frac3, b: Frac3, a2: Frac3, b2: Frac3)
    requires
        f3_wf(a),
        f3_wf(b),
        f3_wf(a2),
        f3_wf(b2),
        f3_eq(a, a2),
        f3_eq(b, b2),
    ensures
        f3_eq(f3_add(a, b), f3_add(a2, b2)),
{
    lemma_frac_add_congruence(a.x, b.x, a2.x, b2.x);
    lemma_frac_add_congruence(a.y, b.y, a2.y, b2.y);
    lemma_frac_add_congruence(a.z, b.z, a2.z, b2.z);
}

/// Componentwise congruence: scaling respects value equality of both
/// factor and vector.
pub proof fn lemma_f3_scale_congruence(k: Frac, v: Frac3, k2: Frac, v2: Frac3)
    requires
        frac_wf(k),
        f3_wf(v),
        frac_wf(k2),
        f3_wf(v2),
        frac_eq(k, k2),
        f3_eq(v, v2),
    ensures
        f3_eq(f3_scale(k, v), f3_scale(k2, v2)),
{
    lemma_frac_mul_congruence(k, v.x, k2, v2.x);
    lemma_frac_mul_congruence(k, v.y, k2, v2.y);
    lemma_frac_mul_congruence(k, v.z, k2, v2.z);
}

/// Vector value equality is transitive over well-formed triples.
pub proof fn lemma_f3_eq_trans(a: Frac3, b: Frac3, c: Frac3)
    requires
        f3_wf(a),
        f3_wf(b),
        f3_wf(c),
        f3_eq(a, b),
        f3_eq(b, c),
    ensures
        f3_eq(a, c),
{
    lemma_frac_eq_trans(a.x, b.x, c.x);
    lemma_frac_eq_trans(a.y, b.y, c.y);
    lemma_frac_eq_trans(a.z, b.z, c.z);
}

/// Adding a zero-valued vector leaves the value unchanged.
pub proof fn lemma_f3_add_zero(a: Frac3, z: Frac3)
    requires
        f3_wf(a),
        f3_wf(z),
        f3_is_zero(z),
    ensures
        f3_eq(f3_add(a, z), a),
        f3_eq(f3_sub(a, z), a),
{
    lemma_frac_add_zero(a.x, z.x);
    lemma_frac_add_zero(a.y, z.y);
    lemma_frac_add_zero(a.z, z.z);
}

/// Scaling by a zero-valued factor gives a zero-valued vector.
pub proof fn lemma_f3_scale_zero(k: Frac, v: Frac3)
    requires
        frac_wf(k),
        f3_wf(v),
        frac_is_zero(k),
    ensures
        f3_is_zero(f3_scale(k, v)),
{
    lemma_frac_mul_zero(v.x, k);
    lemma_frac_mul_zero(v.y, k);
    lemma_frac_mul_zero(v.z, k);
}

/// From a shared positive-free factor of numerator and denominator,
/// concludes value equality of two fractions.
proof fn lemma_frac_eq_common_factor(s: int, an: int, ad: int, bn: int, bd: int) by (nonlinear_arith)
    requires
        an == s * bn,
        ad == s * bd,
    ensures
        an * bd == bn * ad,
{
}

/// Numerator and denominator of one component of `o x (f - k o)`, written
/// out over raw integers, factor into those of `o x f`.
proof fn lemma_shift_factor_den(
    ud: int, vd: int, pd: int, qd: int, kd: int,
)
    ensures
        (ud * (qd * (kd * vd))) * (vd * (pd * (kd * ud))) == ((kd * kd) * (ud * vd)) * ((ud * qd)
            * (vd * pd)),
{
    broadcast use vstd::arithmetic::mul::group_mul_properties;

}

proof fn lemma_mul_distribute_left(r: int, p: int, q: int) by (nonlinear_arith)
    ensures
        r * (p - q) == r * p - r * q,
{
}

proof fn lemma_mul_distribute_right(p: int, q: int, r: int) by (nonlinear_arith)
    ensures
        (p - q) * r == p * r - q * r,
{
}

proof fn lemma_shift_mono_main(un: int, ud: int, vd: int, pd: int, qn: int, kd: int)
    ensures
        (un * (qn * (kd * vd))) * (vd * (pd * (kd * ud))) == ((kd * kd) * (ud * vd)) * ((un * qn)
            * (vd * pd)),
{
    broadcast use vstd::arithmetic::mul::group_mul_properties;

}

proof fn lemma_shift_mono_cancel(un: int, ud: int, vn: int, vd: int, pd: int, qd: int, kn: int, kd: int)
    ensures
        (un * ((kn * vn) * qd)) * (vd * (pd * (kd * ud))) == ((kn * kd) * (ud * vd)) * ((un * vn)
            * (qd * pd)),
{
    broadcast use vstd::arithmetic::mul::group_mul_properties;

}

#[verifier::rlimit(30)]
proof fn lemma_shift_factor_num(
    un: int, ud: int, vn: int, vd: int, pn: int, pd: int, qn: int, qd: int, kn: int, kd: int,
)
    ensures
        (un * (qn * (kd * vd) - (kn * vn) * qd)) * (vd * (pd * (kd * ud))) - (vn * (pn * (kd * ud)
            - (kn * un) * pd)) * (ud * (qd * (kd * vd))) == ((kd * kd) * (ud * vd)) * ((un * qn)
            * (vd * pd) - (vn * pn) * (ud * qd)),
{
    let syd = pd * (kd * ud);
    let szd = qd * (kd * vd);
    let s = (kd * kd) * (ud * vd);
    lemma_mul_distribute_left(un, qn * (kd * vd), (kn * vn) * qd);
    lemma_mul_distribute_right(un * (qn * (kd * vd)), un * ((kn * vn) * qd), vd * syd);
    lemma_shift_mono_main(un, ud, vd, pd, qn, kd);
    lemma_shift_mono_cancel(un, ud, vn, vd, pd, qd, kn, kd);
    lemma_mul_distribute_left(vn, pn * (kd * ud), (kn * un) * pd);
    lemma_mul_distribute_right(vn * (pn * (kd * ud)), vn * ((kn * un) * pd), ud * szd);
    lemma_shift_mono_main(vn, vd, ud, qd, pn, kd);
    lemma_shift_mono_cancel(vn, vd, un, ud, qd, pd, kn, kd);
    lemma_mul_distribute_left(s, (un * qn) * (vd * pd), (vn * pn) * (ud * qd));
    assert((kd * kd) * (ud * vd) == (kd * kd) * (vd * ud)) by (nonlinear_arith);
    assert(((kn * kd) * (ud * vd)) * ((un * vn) * (qd * pd)) == ((kn * kd) * (vd * ud)) * ((vn
        * un) * (pd * qd))) by (nonlinear_arith);
}

proof fn lemma_shift_factor(
    un: int, ud: int, vn: int, vd: int, pn: int, pd: int, qn: int, qd: int, kn: int, kd: int,
)
    ensures
        (un * (qn * (kd * vd) - (kn * vn) * qd)) * (vd * (pd * (kd * ud))) - (vn * (pn * (kd * ud)
            - (kn * un) * pd)) * (ud * (qd * (kd * vd))) == ((kd * kd) * (ud * vd)) * ((un * qn)
            * (vd * pd) - (vn * pn) * (ud * qd)),
        (ud * (qd * (kd * vd))) * (vd * (pd * (kd * ud))) == ((kd * kd) * (ud * vd)) * ((ud * qd)
            * (vd * pd)),
{
    lemma_shift_factor_den(ud, vd, pd, qd, kd);
    lemma_shift_factor_num(un, ud, vn, vd, pn, pd, qn, qd, kn, kd);
}

/// Subtracting any multiple of the first factor from the second does not
/// change a cross product: `o x (f - k o) = o x f`.
pub proof fn lemma_f3_cross_shift(o: Frac3, f: Frac3, k: Frac)
    ensures
        f3_eq(f3_cross(o, f3_sub(f, f3_scale(k, o))), f3_cross(o, f)),
{
    let a = f3_cross(o, f3_sub(f, f3_scale(k, o)));
    let b = f3_cross(o, f);
    lemma_shift_factor(o.y.n, o.y.d, o.z.n, o.z.d, f.y.n, f.y.d, f.z.n, f.z.d, k.n, k.d);
    lemma_frac_eq_common_factor((k.d * k.d) * (o.y.d * o.z.d), a.x.n, a.x.d, b.x.n, b.x.d);
    lemma_shift_factor(o.z.n, o.z.d, o.x.n, o.x.d, f.z.n, f.z.d, f.x.n, f.x.d, k.n, k.d);
    lemma_frac_eq_common_factor((k.d * k.d) * (o.z.d * o.x.d), a.y.n, a.y.d, b.y.n, b.y.d);
    lemma_shift_factor(o.x.n, o.x.d, o.y.n, o.y.d, f.x.n, f.x.d, f.y.n, f.y.d, k.n, k.d);
    lemma_frac_eq_common_factor((k.d * k.d) * (o.x.d * o.y.d), a.z.n, a.z.d, b.z.n, b.z.d);
}

/// Numerator and denominator of one component of `(k a) x b` and of
/// `a x (k b)`, written out over raw integers, factor into those of
/// `k (a x b)`.
proof fn lemma_scale_factor(
    un: int, ud: int, vn: int, vd: int, pn: int, pd: int, qn: int, qd: int, kn: int, kd: int,
)
    ensures
        ((kn * un) * qn) * ((kd * vd) * pd) - ((kn * vn) * pn) * ((kd * ud) * qd) == kd * (kn * ((un
            * qn) * (vd * pd) - (vn * pn) * (ud * qd))),
        ((kd * ud) * qd) * ((kd * vd) * pd) == kd * (kd * ((ud * qd) * (vd * pd))),
        (un * (kn * qn)) * (vd * (kd * pd)) - (vn * (kn * pn)) * (ud * (kd * qd)) == kd * (kn * ((un
            * qn) * (vd * pd) - (vn * pn) * (ud * qd))),
        (ud * (kd * qd)) * (vd * (kd * pd)) == kd * (kd * ((ud * qd) * (vd * pd))),
{
    broadcast use vstd::arithmetic::mul::group_mul_properties;

}

/// The cross product is linear in each argument under scaling:
/// `(k a) x b = k (a x b)` and `a x (k b) = k (a x b)`.
pub proof fn lemma_f3_cross_scale(a: Frac3, b: Frac3, k: Frac)
    ensures
        f3_eq(f3_cross(f3_scale(k, a), b), f3_scale(k, f3_cross(a, b))),
        f3_eq(f3_cross(a, f3_scale(k, b)), f3_scale(k, f3_cross(a, b))),
{
    let l1 = f3_cross(f3_scale(k, a), b);
    let l2 = f3_cross(a, f3_scale(k, b));
    let r = f3_scale(k, f3_cross(a, b));
    lemma_scale_factor(a.y.n, a.y.d, a.z.n, a.z.d, b.y.n, b.y.d, b.z.n, b.z.d, k.n, k.d);
    lemma_frac_eq_common_factor(k.d, l1.x.n, l1.x.d, r.x.n, r.x.d);
    lemma_frac_eq_common_factor(k.d, l2.x.n, l2.x.d, r.x.n, r.x.d);
    lemma_scale_factor(a.z.n, a.z.d, a.x.n, a.x.d, b.z.n, b.z.d, b.x.n, b.x.d, k.n, k.d);
    lemma_frac_eq_common_factor(k.d, l1.y.n, l1.y.d, r.y.n, r.y.d);
    lemma_frac_eq_common_factor(k.d, l2.y.n, l2.y.d, r.y.n, r.y.d);
    lemma_scale_factor(a.x.n, a.x.d, a.y.n, a.y.d, b.x.n, b.x.d, b.y.n, b.y.d, k.n, k.d);
    lemma_frac_eq_common_factor(k.d, l1.z.n, l1.z.d, r.z.n, r.z.d);
    lemma_frac_eq_common_factor(k.d, l2.z.n, l2.z.d, r.z.n, r.z.d);
}

/// One component of the parallel law, flattened to raw integers.
proof fn lemma_cross_parallel_component(
    un: int, ud: int, vn: int, vd: int, kn: int, kd: int,
) by (nonlinear_arith)
    ensures
        (un * (kn * vn)) * (vd * (kd * ud)) - (vn * (kn * un)) * (ud * (kd * vd)) == 0,
{
}

/// The cross product of a vector with a multiple of itself is zero-valued.
pub proof fn lemma_f3_cross_parallel(o: Frac3, k: Frac)
    ensures
        f3_is_zero(f3_cross(o, f3_scale(k, o))),
{
    lemma_cross_parallel_component(o.y.n, o.y.d, o.z.n, o.z.d, k.n, k.d);
    lemma_cross_parallel_component(o.z.n, o.z.d, o.x.n, o.x.d, k.n, k.d);
    lemma_cross_parallel_component(o.x.n, o.x.d, o.y.n, o.y.d, k.n, k.d);
}

/// Componentwise sums, differences and scalings of well-formed triples are
/// well-formed.
pub proof fn lemma_f3_ops_wf(a: Frac3, b: Frac3)
    requires
        f3_wf(a),
        f3_wf(b),
    ensures
        f3_wf(f3_add(a, b)),
        f3_wf(f3_sub(a, b)),
        f3_wf(f3_cross(a, b)),
        frac_wf(f3_dot(a, b)),
{
    lemma_frac_ops_wf(a.x, b.x);
    lemma_frac_ops_wf(a.y, b.y);
    lemma_frac_ops_wf(a.z, b.z);
    lemma_frac_ops_wf(a.y, b.z);
    lemma_frac_ops_wf(a.z, b.y);
    lemma_frac_ops_wf(a.z, b.x);
    lemma_frac_ops_wf(a.x, b.z);
    lemma_frac_ops_wf(a.x, b.y);
    lemma_frac_ops_wf(a.y, b.x);
    lemma_frac_ops_wf(frac_mul(a.y, b.z), frac_mul(a.z, b.y));
    lemma_frac_ops_wf(frac_mul(a.z, b.x), frac_mul(a.x, b.z));
    lemma_frac_ops_wf(frac_mul(a.x, b.y), frac_mul(a.y, b.x));
    lemma_frac_ops_wf(frac_mul(a.x, b.x), frac_mul(a.y, b.y));
    lemma_frac_ops_wf(frac_add(frac_mul(a.x, b.x), frac_mul(a.y, b.y)), frac_mul(a.z, b.z));
}

/// A scaling of a well-formed triple by a well-formed factor is well-formed.
pub proof fn lemma_f3_scale_wf(k: Frac, v: Frac3)
    requires
        frac_wf(k),
        f3_wf(v),
    ensures
        f3_wf(f3_scale(k, v)),
{
    lemma_frac_ops_wf(k, v.x);
    lemma_frac_ops_wf(k, v.y);
    lemma_frac_ops_wf(k, v.z);
}

/// A zero-valued well-formed triple is value-equal to the zero triple, and
/// conversely.
pub proof fn lemma_f3_zero_eq(v: Frac3)
    requires
        f3_wf(v),
    ensures
        f3_is_zero(v) <==> f3_eq(v, f3_zero()),
{
    lemma_frac_zero_eq(v.x);
    lemma_frac_zero_eq(v.y);
    lemma_frac_zero_eq(v.z);
}

/// The cross product respects value equality of its second argument.
pub proof fn lemma_f3_cross_congruence_right(o: Frac3, f: Frac3, f2: Frac3)
    requires
        f3_wf(o),
        f3_wf(f),
        f3_wf(f2),
        f3_eq(f, f2),
    ensures
        f3_eq(f3_cross(o, f), f3_cross(o, f2)),
{
    lemma_frac_mul_congruence(o.y, f.z, o.y, f2.z);
    lemma_frac_mul_congruence(o.z, f.y, o.z, f2.y);
    lemma_frac_mul_congruence(o.z, f.x, o.z, f2.x);
    lemma_frac_mul_congruence(o.x, f.z, o.x, f2.z);
    lemma_frac_mul_congruence(o.x, f.y, o.x, f2.y);
    lemma_frac_mul_congruence(o.y, f.x, o.y, f2.x);
    lemma_frac_ops_wf(o.y, f.z);
    lemma_frac_ops_wf(o.z, f.y);
    lemma_frac_ops_wf(o.z, f.x);
    lemma_frac_ops_wf(o.x, f.z);
    lemma_frac_ops_wf(o.x, f.y);
    lemma_frac_ops_wf(o.y, f.x);
    lemma_frac_ops_wf(o.y, f2.z);
    lemma_frac_ops_wf(o.z, f2.y);
    lemma_frac_ops_wf(o.z, f2.x);
    lemma_frac_ops_wf(o.x, f2.z);
    lemma_frac_ops_wf(o.x, f2.y);
    lemma_frac_ops_wf(o.y, f2.x);
    lemma_frac_sub_congruence(frac_mul(o.y, f.z), frac_mul(o.z, f.y), frac_mul(o.y, f2.z), frac_mul(o.z, f2.y));
    lemma_frac_sub_congruence(frac_mul(o.z, f.x), frac_mul(o.x, f.z), frac_mul(o.z, f2.x), frac_mul(o.x, f2.z));
    lemma_frac_sub_congruence(frac_mul(o.x, f.y), frac_mul(o.y, f.x), frac_mul(o.x, f2.y), frac_mul(o.y, f2.x));
}

/// Scaling a zero-valued vector gives a zero-valued vector.
pub proof fn lemma_f3_scale_zero_vec(k: Frac, v: Frac3)
    requires
        frac_wf(k),
        f3_wf(v),
        f3_is_zero(v),
    ensures
        f3_is_zero(f3_scale(k, v)),
{
    lemma_frac_mul_zero(k, v.x);
    lemma_frac_mul_zero(k, v.y);
    lemma_frac_mul_zero(k, v.z);
}

/// Two half-steps of a constant field amount to one full step:
/// `(v + (d/2) a) + (d/2) a` is value-equal to `v + d a`.
pub proof fn lemma_f3_half_step(v: Frac3, a: Frac3, delta: Frac)
    requires
        f3_wf(v),
        f3_wf(a),
        frac_wf(delta),
    ensures
        f3_eq(
            f3_add(
                f3_add(v, f3_scale(frac_div(delta, frac_int(2)), a)),
                f3_scale(frac_div(delta, frac_int(2)), a),
            ),
            f3_add(v, f3_scale(delta, a)),
        ),
{
    let h = frac_div(delta, frac_int(2));
    lemma_frac_div_wf(delta, frac_int(2));
    lemma_half_step_component(v.x, a.x, delta);
    lemma_half_step_component(v.y, a.y, delta);
    lemma_half_step_component(v.z, a.z, delta);
}

/// One component of the half-step law.
proof fn lemma_half_step_component(v: Frac, a: Frac, delta: Frac)
    requires
        frac_wf(v),
        frac_wf(a),
        frac_wf(delta),
    ensures
        frac_eq(
            frac_add(
                frac_add(v, frac_mul(frac_div(delta, frac_int(2)), a)),
                frac_mul(frac_div(delta, frac_int(2)), a),
            ),
            frac_add(v, frac_mul(delta, a)),
        ),
{
    let h = frac_div(delta, frac_int(2));
    let p = frac_mul(h, a);
    lemma_frac_div_wf(delta, frac_int(2));
    lemma_frac_ops_wf(h, a);
    lemma_frac_ops_wf(p, p);
    lemma_frac_ops_wf(delta, a);
    lemma_frac_ops_wf(v, p);
    lemma_frac_ops_wf(frac_add(v, p), p);
    lemma_frac_ops_wf(v, frac_add(p, p));
    lemma_frac_ops_wf(v, frac_mul(delta, a));
    lemma_frac_add_assoc(v, p, p);
    lemma_frac_halves(delta, a);
    lemma_frac_add_congruence(v, frac_add(p, p), v, frac_mul(delta, a));
    lemma_frac_eq_trans(
        frac_add(frac_add(v, p), p),
        frac_add(v, frac_add(p, p)),
        frac_add(v, frac_mul(delta, a)),
    );
}

/// A dot product of a well-formed vector with itself is zero only for the
/// zero vector.
pub proof fn lemma_f3_dot_self_zero(o: Frac3)
    requires
        f3_wf(o),
    ensures
        frac_is_zero(f3_dot(o, o)) <==> f3_is_zero(o),
{
    assert(frac_is_zero(f3_dot(o, o)) <==> (o.x.n == 0 && o.y.n == 0 && o.z.n == 0))
        by (nonlinear_arith)
        requires
            o.x.d > 0,
            o.y.d > 0,
            o.z.d > 0,
    ;
}

} // verus!
