//! Inertia tensors.
//!
//! An `Inertia` is a 3x3 tensor in body-local axes describing resistance to
//! angular acceleration.  Constructors cover solid cylinders aligned along
//! each principal axis; `get_angular_acceleration` solves
//! `tensor * answer = torque` by Cramer's rule and fails on a singular
//! tensor instead of producing meaningless output.

use vstd::prelude::*;

use crate::force::Torque;
use crate::matrix::{Frac3x3, Mat3, m3_det};
use crate::rational::{
    Frac, Rat, frac_add, frac_div, frac_eq, frac_fits, frac_int, frac_is_zero, frac_mul, frac_wf,
    lemma_frac_add_zero, lemma_frac_div_cancel, lemma_frac_div_wf, lemma_frac_eq_trans,
    lemma_frac_mul_congruence, lemma_frac_mul_one, lemma_frac_mul_rotate, lemma_frac_mul_shuffle,
    lemma_frac_mul_zero, lemma_frac_ops_wf, lemma_frac_zero_ops,
};
use crate::vector::{
    Frac3, Vec3, f3_add, f3_add_fits, f3_cross, f3_cross_fits, f3_dot, f3_dot_fits, f3_eq,
    f3_scale, f3_scale_fits, f3_wf, lemma_f3_add_congruence, lemma_f3_ops_wf,
    lemma_f3_scale_congruence, lemma_f3_scale_wf,
};
use crate::matrix::{m3_is_diagonal, m3_mul_vec};
use crate::matrix::m3_wf;

verus! {

/// Moment of inertia of a solid cylinder about its axis of symmetry:
/// `m r^2 / 2`.
pub open spec fn cylinder_front(radius: Frac, mass: Frac) -> Frac {
    frac_div(frac_mul(mass, frac_mul(radius, radius)), frac_int(2))
}

/// Moment of inertia of a solid cylinder about a perpendicular axis through
/// its center: `m h^2 / 12 + m r^2 / 4`.
pub open spec fn cylinder_side(height: Frac, radius: Frac, mass: Frac) -> Frac {
    frac_add(
        frac_div(frac_mul(mass, frac_mul(height, height)), frac_int(12)),
        frac_div(frac_mul(mass, frac_mul(radius, radius)), frac_int(4)),
    )
}

/// Every intermediate of the cylinder construction stays in the machine
/// range.
pub open spec fn cylinder_fits(height: Frac, radius: Frac, mass: Frac) -> bool {
    &&& frac_fits(frac_mul(height, height))
    &&& frac_fits(frac_mul(radius, radius))
    &&& frac_fits(frac_mul(mass, frac_mul(height, height)))
    &&& frac_fits(frac_mul(mass, frac_mul(radius, radius)))
    &&& frac_fits(frac_div(frac_mul(mass, frac_mul(height, height)), frac_int(12)))
    &&& frac_fits(frac_div(frac_mul(mass, frac_mul(radius, radius)), frac_int(4)))
    &&& frac_fits(cylinder_side(height, radius, mass))
    &&& frac_fits(cylinder_front(radius, mass))
}

/// The angular acceleration induced by a torque: `inverse(m) * t`, written
/// by Cramer's rule over the rows of `m`.
pub open spec fn m3_inv_mul(m: Frac3x3, t: Frac3) -> Frac3 {
    f3_scale(
        frac_div(frac_int(1), m3_det(m)),
        f3_add(
            f3_add(f3_scale(t.x, f3_cross(m.r1, m.r2)), f3_scale(t.y, f3_cross(m.r2, m.r0))),
            f3_scale(t.z, f3_cross(m.r0, m.r1)),
        ),
    )
}

/// Every intermediate of the inverse application stays in the machine
/// range; a singular tensor never fits, because the reciprocal of a zero
/// determinant has no representation.
pub open spec fn inv_mul_fits(m: Frac3x3, t: Frac3) -> bool {
    &&& f3_cross_fits(m.r1, m.r2)
    &&& f3_cross_fits(m.r2, m.r0)
    &&& f3_cross_fits(m.r0, m.r1)
    &&& f3_dot_fits(m.r0, f3_cross(m.r1, m.r2))
    &&& frac_fits(frac_div(frac_int(1), m3_det(m)))
    &&& f3_scale_fits(t.x, f3_cross(m.r1, m.r2))
    &&& f3_scale_fits(t.y, f3_cross(m.r2, m.r0))
    &&& f3_scale_fits(t.z, f3_cross(m.r0, m.r1))
    &&& f3_add_fits(
        f3_scale(t.x, f3_cross(m.r1, m.r2)),
        f3_scale(t.y, f3_cross(m.r2, m.r0)),
    )
    &&& f3_add_fits(
        f3_add(f3_scale(t.x, f3_cross(m.r1, m.r2)), f3_scale(t.y, f3_cross(m.r2, m.r0))),
        f3_scale(t.z, f3_cross(m.r0, m.r1)),
    )
    &&& f3_scale_fits(
        frac_div(frac_int(1), m3_det(m)),
        f3_add(
            f3_add(f3_scale(t.x, f3_cross(m.r1, m.r2)), f3_scale(t.y, f3_cross(m.r2, m.r0))),
            f3_scale(t.z, f3_cross(m.r0, m.r1)),
        ),
    )
}

/// An object's rotational mass distribution as a 3x3 tensor.
///
/// Used when decomposing applied moments into rotational and translational
/// acceleration.
#[derive(Clone, Copy, Debug)]
pub struct Inertia(pub Mat3);

impl View for Inertia {
    type V = Frac3x3;

    open spec fn view(&self) -> Frac3x3 {
        self.0@
    }
}

impl Inertia {
    pub open spec fn wf(&self) -> bool {
        self.0.wf()
    }

    /// The front and side moments of a solid cylinder, exact.
    fn cylinder_parts(height: &Rat, radius: &Rat, mass: &Rat) -> (r: Option<(Rat, Rat)>)
        requires
            height.wf(),
            radius.wf(),
            mass.wf(),
        ensures
            r matches Some(p) ==> p.0.wf() && p.1.wf() && p.0@ == cylinder_front(radius@, mass@)
                && p.1@ == cylinder_side(height@, radius@, mass@),
            r is Some <==> cylinder_fits(height@, radius@, mass@),
    {
        let h2 = height.mul(height)?;
        let r2 = radius.mul(radius)?;
        let mh2 = mass.mul(&h2)?;
        let mr2 = mass.mul(&r2)?;
        let t1 = mh2.div(&Rat::from_int(12))?;
        let t2 = mr2.div(&Rat::from_int(4))?;
        let side = t1.add(&t2)?;
        let front = mr2.div(&Rat::from_int(2))?;
        Some((front, side))
    }

    /// A solid cylinder whose height runs along the x axis.
    pub fn cylinder_x(height: &Rat, radius: &Rat, mass: &Rat) -> (r: Option<Inertia>)
        requires
            height.wf(),
            radius.wf(),
            mass.wf(),
        ensures
            r matches Some(i) ==> i.wf() && m3_is_diagonal(i@) && i@.r0.x == cylinder_front(
                radius@,
                mass@,
            ) && i@.r1.y == cylinder_side(height@, radius@, mass@) && i@.r2.z == cylinder_side(
                height@,
                radius@,
                mass@,
            ),
            r is Some <==> cylinder_fits(height@, radius@, mass@),
    {
        let (front, side) = Inertia::cylinder_parts(height, radius, mass)?;
        Some(Inertia(Mat3::diagonal(front, side, side)))
    }

    /// A solid cylinder whose height runs along the y axis.
    pub fn cylinder_y(height: &Rat, radius: &Rat, mass: &Rat) -> (r: Option<Inertia>)
        requires
            height.wf(),
            radius.wf(),
            mass.wf(),
        ensures
            r matches Some(i) ==> i.wf() && m3_is_diagonal(i@) && i@.r0.x == cylinder_side(
                height@,
                radius@,
                mass@,
            ) && i@.r1.y == cylinder_front(radius@, mass@) && i@.r2.z == cylinder_side(
                height@,
                radius@,
                mass@,
            ),
            r is Some <==> cylinder_fits(height@, radius@, mass@),
    {
        let (front, side) = Inertia::cylinder_parts(height, radius, mass)?;
        Some(Inertia(Mat3::diagonal(side, front, side)))
    }

    /// A solid cylinder whose height runs along the z axis.
    pub fn cylinder_z(height: &Rat, radius: &Rat, mass: &Rat) -> (r: Option<Inertia>)
        requires
            height.wf(),
            radius.wf(),
            mass.wf(),
        ensures
            r matches Some(i) ==> i.wf() && m3_is_diagonal(i@) && i@.r0.x == cylinder_side(
                height@,
                radius@,
                mass@,
            ) && i@.r1.y == cylinder_side(height@, radius@, mass@) && i@.r2.z == cylinder_front(
                radius@,
                mass@,
            ),
            r is Some <==> cylinder_fits(height@, radius@, mass@),
    {
        let (front, side) = Inertia::cylinder_parts(height, radius, mass)?;
        Some(Inertia(Mat3::diagonal(side, side, front)))
    }

    /// Computes the angular acceleration induced by applying a torque.
    ///
    /// Returns `inverse(tensor) * torque`, exactly; `None` when the tensor
    /// is singular (the inverse does not exist) or an intermediate of the
    /// exact computation leaves the machine range.
    pub fn get_angular_acceleration(&self, torque: &Torque) -> (r: Option<Vec3>)
        requires
            self.wf(),
            torque.wf(),
        ensures
            r matches Some(a) ==> a.wf() && a@ == m3_inv_mul(self@, torque@),
            r is Some <==> inv_mul_fits(self@, torque@),
            frac_is_zero(m3_det(self@)) ==> r is None,
    {
        let u = self.0.r1.cross(&self.0.r2)?;
        let v = self.0.r2.cross(&self.0.r0)?;
        let w = self.0.r0.cross(&self.0.r1)?;
        let det = self.0.r0.dot(&u)?;
        let recip = Rat::one().div(&det)?;
        let s1 = u.scale(&torque.0.x)?;
        let s2 = v.scale(&torque.0.y)?;
        let s3 = w.scale(&torque.0.z)?;
        let sum = s1.add(&s2)?.add(&s3)?;
        sum.scale(&recip)
    }
}

/// With a nonsingular tensor the inverse application is well-formed.
pub proof fn lemma_inv_mul_wf(m: Frac3x3, t: Frac3)
    requires
        m3_wf(m),
        f3_wf(t),
        !frac_is_zero(m3_det(m)),
    ensures
        f3_wf(m3_inv_mul(m, t)),
{
    lemma_inv_mul_pieces_wf(m, t);
    let s = f3_add(
        f3_add(f3_scale(t.x, f3_cross(m.r1, m.r2)), f3_scale(t.y, f3_cross(m.r2, m.r0))),
        f3_scale(t.z, f3_cross(m.r0, m.r1)),
    );
    lemma_f3_scale_wf(frac_div(frac_int(1), m3_det(m)), s);
}

/// Well-formedness of every intermediate of the inverse application.
proof fn lemma_inv_mul_pieces_wf(m: Frac3x3, t: Frac3)
    requires
        m3_wf(m),
        f3_wf(t),
        !frac_is_zero(m3_det(m)),
    ensures
        f3_wf(f3_cross(m.r1, m.r2)),
        f3_wf(f3_cross(m.r2, m.r0)),
        f3_wf(f3_cross(m.r0, m.r1)),
        frac_wf(m3_det(m)),
        frac_wf(frac_div(frac_int(1), m3_det(m))),
        f3_wf(f3_scale(t.x, f3_cross(m.r1, m.r2))),
        f3_wf(f3_scale(t.y, f3_cross(m.r2, m.r0))),
        f3_wf(f3_scale(t.z, f3_cross(m.r0, m.r1))),
        f3_wf(
            f3_add(f3_scale(t.x, f3_cross(m.r1, m.r2)), f3_scale(t.y, f3_cross(m.r2, m.r0))),
        ),
        f3_wf(
            f3_add(
                f3_add(f3_scale(t.x, f3_cross(m.r1, m.r2)), f3_scale(t.y, f3_cross(m.r2, m.r0))),
                f3_scale(t.z, f3_cross(m.r0, m.r1)),
            ),
        ),
{
    lemma_f3_ops_wf(m.r1, m.r2);
    lemma_f3_ops_wf(m.r2, m.r0);
    lemma_f3_ops_wf(m.r0, m.r1);
    lemma_f3_ops_wf(m.r0, f3_cross(m.r1, m.r2));
    lemma_frac_div_wf(frac_int(1), m3_det(m));
    lemma_f3_scale_wf(t.x, f3_cross(m.r1, m.r2));
    lemma_f3_scale_wf(t.y, f3_cross(m.r2, m.r0));
    lemma_f3_scale_wf(t.z, f3_cross(m.r0, m.r1));
    lemma_f3_ops_wf(
        f3_scale(t.x, f3_cross(m.r1, m.r2)),
        f3_scale(t.y, f3_cross(m.r2, m.r0)),
    );
    lemma_f3_ops_wf(
        f3_add(f3_scale(t.x, f3_cross(m.r1, m.r2)), f3_scale(t.y, f3_cross(m.r2, m.r0))),
        f3_scale(t.z, f3_cross(m.r0, m.r1)),
    );
}

/// The inverse application respects value equality of the torque.
pub proof fn lemma_inv_mul_congruence(m: Frac3x3, t: Frac3, t2: Frac3)
    requires
        m3_wf(m),
        f3_wf(t),
        f3_wf(t2),
        f3_eq(t, t2),
        !frac_is_zero(m3_det(m)),
    ensures
        f3_eq(m3_inv_mul(m, t), m3_inv_mul(m, t2)),
{
    lemma_inv_mul_pieces_wf(m, t);
    lemma_inv_mul_pieces_wf(m, t2);
    lemma_f3_scale_congruence(t.x, f3_cross(m.r1, m.r2), t2.x, f3_cross(m.r1, m.r2));
    lemma_f3_scale_congruence(t.y, f3_cross(m.r2, m.r0), t2.y, f3_cross(m.r2, m.r0));
    lemma_f3_scale_congruence(t.z, f3_cross(m.r0, m.r1), t2.z, f3_cross(m.r0, m.r1));
    lemma_f3_add_congruence(
        f3_scale(t.x, f3_cross(m.r1, m.r2)),
        f3_scale(t.y, f3_cross(m.r2, m.r0)),
        f3_scale(t2.x, f3_cross(m.r1, m.r2)),
        f3_scale(t2.y, f3_cross(m.r2, m.r0)),
    );
    lemma_f3_add_congruence(
        f3_add(f3_scale(t.x, f3_cross(m.r1, m.r2)), f3_scale(t.y, f3_cross(m.r2, m.r0))),
        f3_scale(t.z, f3_cross(m.r0, m.r1)),
        f3_add(f3_scale(t2.x, f3_cross(m.r1, m.r2)), f3_scale(t2.y, f3_cross(m.r2, m.r0))),
        f3_scale(t2.z, f3_cross(m.r0, m.r1)),
    );
    lemma_f3_scale_congruence(
        frac_div(frac_int(1), m3_det(m)),
        f3_add(
            f3_add(f3_scale(t.x, f3_cross(m.r1, m.r2)), f3_scale(t.y, f3_cross(m.r2, m.r0))),
            f3_scale(t.z, f3_cross(m.r0, m.r1)),
        ),
        frac_div(frac_int(1), m3_det(m)),
        f3_add(
            f3_add(f3_scale(t2.x, f3_cross(m.r1, m.r2)), f3_scale(t2.y, f3_cross(m.r2, m.r0))),
            f3_scale(t2.z, f3_cross(m.r0, m.r1)),
        ),
    );
}

/// Cancellation behind one component of the inverse round trip: when
/// `di * pi` is the determinant, `di * ((1/det) * (ti * pi))` is `ti`.
proof fn lemma_diag_cancel(di: Frac, pi: Frac, ti: Frac, det: Frac)
    requires
        frac_wf(di),
        frac_wf(pi),
        frac_wf(ti),
        frac_wf(det),
        !frac_is_zero(det),
        frac_eq(frac_mul(di, pi), det),
    ensures
        frac_eq(frac_mul(di, frac_mul(frac_div(frac_int(1), det), frac_mul(ti, pi))), ti),
{
    let recip = frac_div(frac_int(1), det);
    let x = frac_mul(di, frac_mul(recip, frac_mul(ti, pi)));
    let y = frac_mul(frac_mul(recip, frac_mul(di, pi)), ti);
    lemma_frac_div_wf(frac_int(1), det);
    lemma_frac_ops_wf(di, pi);
    lemma_frac_ops_wf(recip, frac_mul(di, pi));
    lemma_frac_ops_wf(recip, det);
    lemma_frac_ops_wf(ti, pi);
    lemma_frac_ops_wf(recip, frac_mul(ti, pi));
    lemma_frac_ops_wf(di, frac_mul(recip, frac_mul(ti, pi)));
    lemma_frac_ops_wf(frac_mul(recip, frac_mul(di, pi)), ti);
    lemma_frac_ops_wf(frac_mul(recip, det), ti);
    lemma_frac_ops_wf(frac_int(1), ti);
    lemma_frac_mul_shuffle(di, recip, ti, pi);
    lemma_frac_mul_congruence(recip, frac_mul(di, pi), recip, det);
    lemma_frac_mul_congruence(frac_mul(recip, frac_mul(di, pi)), ti, frac_mul(recip, det), ti);
    lemma_frac_div_cancel(frac_int(1), det);
    lemma_frac_mul_congruence(frac_mul(recip, det), ti, frac_int(1), ti);
    lemma_frac_mul_one(ti);
    lemma_frac_eq_trans(x, y, frac_mul(frac_mul(recip, det), ti));
    lemma_frac_eq_trans(x, frac_mul(frac_mul(recip, det), ti), frac_mul(frac_int(1), ti));
    lemma_frac_eq_trans(x, frac_mul(frac_int(1), ti), ti);
}

/// Inverse round trip: applying the tensor to the angular acceleration of
/// a torque gives the torque back.  Proven for diagonal tensors with a
/// nonzero determinant, which covers every tensor this crate constructs.
pub proof fn lemma_angular_acceleration_round_trip(m: Frac3x3, t: Frac3)
    requires
        m3_wf(m),
        f3_wf(t),
        m3_is_diagonal(m),
        !frac_is_zero(m3_det(m)),
    ensures
        f3_eq(m3_mul_vec(m, m3_inv_mul(m, t)), t),
{
    let d0 = m.r0.x;
    let d1 = m.r1.y;
    let d2 = m.r2.z;
    let u = f3_cross(m.r1, m.r2);
    let v = f3_cross(m.r2, m.r0);
    let w = f3_cross(m.r0, m.r1);
    let det = m3_det(m);
    let recip = frac_div(frac_int(1), det);
    let s = f3_add(f3_add(f3_scale(t.x, u), f3_scale(t.y, v)), f3_scale(t.z, w));
    let inv = m3_inv_mul(m, t);
    let pix = frac_mul(d1, d2);
    let piy = frac_mul(d2, d0);
    let piz = frac_mul(d0, d1);
    lemma_inv_mul_pieces_wf(m, t);
    lemma_inv_mul_wf(m, t);
    lemma_frac_ops_wf(d1, d2);
    lemma_frac_ops_wf(d2, d0);
    lemma_frac_ops_wf(d0, d1);
    lemma_frac_ops_wf(d0, pix);
    lemma_frac_ops_wf(d1, piy);
    lemma_frac_ops_wf(d2, piz);

    // cross-product entries of a diagonal tensor
    lemma_frac_ops_wf(m.r1.y, m.r2.z);
    lemma_frac_ops_wf(m.r1.z, m.r2.y);
    lemma_frac_mul_zero(m.r2.y, m.r1.z);
    lemma_frac_add_zero(frac_mul(m.r1.y, m.r2.z), frac_mul(m.r1.z, m.r2.y));
    // frac_eq(u.x, pix)
    lemma_frac_mul_zero(m.r2.x, m.r1.z);
    lemma_frac_mul_zero(m.r2.z, m.r1.x);
    lemma_frac_zero_ops(frac_mul(m.r1.z, m.r2.x), frac_mul(m.r1.x, m.r2.z));
    // u.y is zero
    lemma_frac_mul_zero(m.r2.y, m.r1.x);
    lemma_frac_mul_zero(m.r1.y, m.r2.x);
    lemma_frac_zero_ops(frac_mul(m.r1.x, m.r2.y), frac_mul(m.r1.y, m.r2.x));
    // u.z is zero
    lemma_frac_mul_zero(m.r0.z, m.r2.y);
    lemma_frac_mul_zero(m.r2.z, m.r0.y);
    lemma_frac_zero_ops(frac_mul(m.r2.y, m.r0.z), frac_mul(m.r2.z, m.r0.y));
    // v.x is zero
    lemma_frac_ops_wf(m.r2.z, m.r0.x);
    lemma_frac_ops_wf(m.r2.x, m.r0.z);
    lemma_frac_mul_zero(m.r0.z, m.r2.x);
    lemma_frac_add_zero(frac_mul(m.r2.z, m.r0.x), frac_mul(m.r2.x, m.r0.z));
    // frac_eq(v.y, piy)
    lemma_frac_mul_zero(m.r0.y, m.r2.x);
    lemma_frac_mul_zero(m.r0.x, m.r2.y);
    lemma_frac_zero_ops(frac_mul(m.r2.x, m.r0.y), frac_mul(m.r2.y, m.r0.x));
    // v.z is zero
    lemma_frac_mul_zero(m.r1.z, m.r0.y);
    lemma_frac_mul_zero(m.r1.y, m.r0.z);
    lemma_frac_zero_ops(frac_mul(m.r0.y, m.r1.z), frac_mul(m.r0.z, m.r1.y));
    // w.x is zero
    lemma_frac_mul_zero(m.r1.x, m.r0.z);
    lemma_frac_mul_zero(m.r0.x, m.r1.z);
    lemma_frac_zero_ops(frac_mul(m.r0.z, m.r1.x), frac_mul(m.r0.x, m.r1.z));
    // w.y is zero
    lemma_frac_ops_wf(m.r0.x, m.r1.y);
    lemma_frac_ops_wf(m.r0.y, m.r1.x);
    lemma_frac_mul_zero(m.r1.x, m.r0.y);
    lemma_frac_add_zero(frac_mul(m.r0.x, m.r1.y), frac_mul(m.r0.y, m.r1.x));
    // frac_eq(w.z, piz)

    // the determinant is the product of the diagonal
    lemma_frac_ops_wf(m.r0.x, u.x);
    lemma_frac_ops_wf(m.r0.y, u.y);
    lemma_frac_ops_wf(m.r0.z, u.z);
    lemma_frac_ops_wf(t.y, v.x);
    lemma_frac_ops_wf(t.z, w.x);
    lemma_frac_ops_wf(t.x, u.y);
    lemma_frac_ops_wf(t.z, w.y);
    lemma_frac_ops_wf(t.x, u.z);
    lemma_frac_ops_wf(t.y, v.z);
    lemma_frac_ops_wf(m.r0.y, inv.y);
    lemma_frac_ops_wf(m.r0.z, inv.z);
    lemma_frac_ops_wf(m.r1.x, inv.x);
    lemma_frac_ops_wf(m.r1.z, inv.z);
    lemma_frac_ops_wf(m.r2.x, inv.x);
    lemma_frac_ops_wf(m.r2.y, inv.y);
    lemma_f3_ops_wf(m.r0, inv);
    lemma_f3_ops_wf(m.r1, inv);
    lemma_f3_ops_wf(m.r2, inv);
    lemma_frac_mul_zero(u.y, m.r0.y);
    lemma_frac_mul_zero(u.z, m.r0.z);
    lemma_frac_add_zero(frac_mul(m.r0.x, u.x), frac_mul(m.r0.y, u.y));
    lemma_frac_ops_wf(frac_mul(m.r0.x, u.x), frac_mul(m.r0.y, u.y));
    lemma_frac_add_zero(frac_add(frac_mul(m.r0.x, u.x), frac_mul(m.r0.y, u.y)), frac_mul(m.r0.z, u.z));
    lemma_frac_eq_trans(det, frac_add(frac_mul(m.r0.x, u.x), frac_mul(m.r0.y, u.y)), frac_mul(d0, u.x));
    lemma_frac_mul_congruence(d0, u.x, d0, pix);
    lemma_frac_eq_trans(det, frac_mul(d0, u.x), frac_mul(d0, pix));
    // frac_eq(det, d0 * pix)
    lemma_frac_mul_rotate(d0, d1, d2);
    lemma_frac_eq_trans(frac_mul(d1, piy), frac_mul(d0, pix), det);
    lemma_frac_mul_rotate(d1, d2, d0);
    lemma_frac_eq_trans(frac_mul(d2, piz), frac_mul(d1, piy), det);

    // the solution vector collapses to the per-axis quotients
    let m1x = frac_mul(t.x, u.x);
    lemma_frac_ops_wf(t.x, u.x);
    lemma_frac_ops_wf(t.x, pix);
    lemma_frac_mul_zero(t.y, v.x);
    lemma_frac_mul_zero(t.z, w.x);
    lemma_frac_add_zero(m1x, frac_mul(t.y, v.x));
    lemma_frac_ops_wf(m1x, frac_mul(t.y, v.x));
    lemma_frac_add_zero(frac_add(m1x, frac_mul(t.y, v.x)), frac_mul(t.z, w.x));
    lemma_frac_eq_trans(s.x, frac_add(m1x, frac_mul(t.y, v.x)), m1x);
    lemma_frac_mul_congruence(t.x, u.x, t.x, pix);
    lemma_frac_eq_trans(s.x, m1x, frac_mul(t.x, pix));

    let m2y = frac_mul(t.y, v.y);
    lemma_frac_ops_wf(t.y, v.y);
    lemma_frac_ops_wf(t.y, piy);
    lemma_frac_mul_zero(t.x, u.y);
    lemma_frac_mul_zero(t.z, w.y);
    lemma_frac_add_zero(m2y, frac_mul(t.x, u.y));
    lemma_frac_ops_wf(frac_mul(t.x, u.y), m2y);
    lemma_frac_add_zero(frac_add(frac_mul(t.x, u.y), m2y), frac_mul(t.z, w.y));
    lemma_frac_ops_wf(frac_mul(t.x, u.y), m2y);
    lemma_frac_eq_trans(s.y, frac_add(frac_mul(t.x, u.y), m2y), m2y);
    lemma_frac_mul_congruence(t.y, v.y, t.y, piy);
    lemma_frac_eq_trans(s.y, m2y, frac_mul(t.y, piy));

    let m3z = frac_mul(t.z, w.z);
    lemma_frac_ops_wf(t.z, w.z);
    lemma_frac_ops_wf(t.z, piz);
    lemma_frac_mul_zero(t.x, u.z);
    lemma_frac_mul_zero(t.y, v.z);
    lemma_frac_zero_ops(frac_mul(t.x, u.z), frac_mul(t.y, v.z));
    lemma_frac_ops_wf(frac_mul(t.x, u.z), frac_mul(t.y, v.z));
    lemma_frac_add_zero(m3z, frac_add(frac_mul(t.x, u.z), frac_mul(t.y, v.z)));
    lemma_frac_eq_trans(
        s.z,
        frac_add(frac_add(frac_mul(t.x, u.z), frac_mul(t.y, v.z)), m3z),
        m3z,
    );
    lemma_frac_mul_congruence(t.z, w.z, t.z, piz);
    lemma_frac_eq_trans(s.z, m3z, frac_mul(t.z, piz));

    // the inverse application per component
    lemma_frac_ops_wf(recip, s.x);
    lemma_frac_ops_wf(recip, s.y);
    lemma_frac_ops_wf(recip, s.z);
    lemma_frac_ops_wf(recip, frac_mul(t.x, pix));
    lemma_frac_ops_wf(recip, frac_mul(t.y, piy));
    lemma_frac_ops_wf(recip, frac_mul(t.z, piz));
    lemma_frac_mul_congruence(recip, s.x, recip, frac_mul(t.x, pix));
    lemma_frac_mul_congruence(recip, s.y, recip, frac_mul(t.y, piy));
    lemma_frac_mul_congruence(recip, s.z, recip, frac_mul(t.z, piz));

    // the product with the tensor row restores each torque component
    lemma_frac_ops_wf(m.r0.x, inv.x);
    lemma_frac_ops_wf(m.r1.y, inv.y);
    lemma_frac_ops_wf(m.r2.z, inv.z);
    lemma_frac_ops_wf(d0, frac_mul(recip, frac_mul(t.x, pix)));
    lemma_frac_ops_wf(d1, frac_mul(recip, frac_mul(t.y, piy)));
    lemma_frac_ops_wf(d2, frac_mul(recip, frac_mul(t.z, piz)));

    lemma_frac_mul_zero(inv.y, m.r0.y);
    lemma_frac_mul_zero(inv.z, m.r0.z);
    lemma_frac_add_zero(frac_mul(m.r0.x, inv.x), frac_mul(m.r0.y, inv.y));
    lemma_frac_ops_wf(frac_mul(m.r0.x, inv.x), frac_mul(m.r0.y, inv.y));
    lemma_frac_add_zero(
        frac_add(frac_mul(m.r0.x, inv.x), frac_mul(m.r0.y, inv.y)),
        frac_mul(m.r0.z, inv.z),
    );
    let dotx = f3_dot(m.r0, inv);
    lemma_frac_eq_trans(
        dotx,
        frac_add(frac_mul(m.r0.x, inv.x), frac_mul(m.r0.y, inv.y)),
        frac_mul(d0, inv.x),
    );
    lemma_frac_mul_congruence(d0, inv.x, d0, frac_mul(recip, frac_mul(t.x, pix)));
    lemma_frac_eq_trans(dotx, frac_mul(d0, inv.x), frac_mul(d0, frac_mul(recip, frac_mul(t.x, pix))));
    lemma_diag_cancel(d0, pix, t.x, det);
    lemma_frac_eq_trans(dotx, frac_mul(d0, frac_mul(recip, frac_mul(t.x, pix))), t.x);

    lemma_frac_mul_zero(inv.x, m.r1.x);
    lemma_frac_mul_zero(inv.z, m.r1.z);
    lemma_frac_add_zero(frac_mul(m.r1.y, inv.y), frac_mul(m.r1.x, inv.x));
    lemma_frac_ops_wf(frac_mul(m.r1.x, inv.x), frac_mul(m.r1.y, inv.y));
    lemma_frac_add_zero(
        frac_add(frac_mul(m.r1.x, inv.x), frac_mul(m.r1.y, inv.y)),
        frac_mul(m.r1.z, inv.z),
    );
    let doty = f3_dot(m.r1, inv);
    lemma_frac_eq_trans(
        doty,
        frac_add(frac_mul(m.r1.x, inv.x), frac_mul(m.r1.y, inv.y)),
        frac_mul(d1, inv.y),
    );
    lemma_frac_mul_congruence(d1, inv.y, d1, frac_mul(recip, frac_mul(t.y, piy)));
    lemma_frac_eq_trans(doty, frac_mul(d1, inv.y), frac_mul(d1, frac_mul(recip, frac_mul(t.y, piy))));
    lemma_diag_cancel(d1, piy, t.y, det);
    lemma_frac_eq_trans(doty, frac_mul(d1, frac_mul(recip, frac_mul(t.y, piy))), t.y);

    lemma_frac_mul_zero(inv.x, m.r2.x);
    lemma_frac_mul_zero(inv.y, m.r2.y);
    lemma_frac_zero_ops(frac_mul(m.r2.x, inv.x), frac_mul(m.r2.y, inv.y));
    lemma_frac_ops_wf(frac_mul(m.r2.x, inv.x), frac_mul(m.r2.y, inv.y));
    lemma_frac_add_zero(
        frac_mul(m.r2.z, inv.z),
        frac_add(frac_mul(m.r2.x, inv.x), frac_mul(m.r2.y, inv.y)),
    );
    let dotz = f3_dot(m.r2, inv);
    lemma_frac_mul_congruence(d2, inv.z, d2, frac_mul(recip, frac_mul(t.z, piz)));
    lemma_frac_eq_trans(
        dotz,
        frac_mul(d2, inv.z),
        frac_mul(d2, frac_mul(recip, frac_mul(t.z, piz))),
    );
    lemma_diag_cancel(d2, piz, t.z, det);
    lemma_frac_eq_trans(dotz, frac_mul(d2, frac_mul(recip, frac_mul(t.z, piz))), t.z);
}

} // verus!
