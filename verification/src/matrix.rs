//! Exact 3x3 matrices, stored as three row vectors.

use vstd::prelude::*;

use crate::rational::{Frac, Rat, frac_is_zero, frac_wf};
use crate::vector::{
    Frac3, Vec3, f3_cross, f3_cross_fits, f3_dot, f3_dot_fits, f3_eq, f3_is_zero, f3_wf,
};

verus! {

/// Mathematical value of a 3x3 matrix: three row triples.
pub ghost struct Frac3x3 {
    pub r0: Frac3,
    pub r1: Frac3,
    pub r2: Frac3,
}

pub open spec fn m3_wf(m: Frac3x3) -> bool {
    f3_wf(m.r0) && f3_wf(m.r1) && f3_wf(m.r2)
}

/// Matrix-vector product, one dot product per row.
pub open spec fn m3_mul_vec(m: Frac3x3, v: Frac3) -> Frac3 {
    Frac3 { x: f3_dot(m.r0, v), y: f3_dot(m.r1, v), z: f3_dot(m.r2, v) }
}

/// The determinant as the scalar triple product of the rows.
pub open spec fn m3_det(m: Frac3x3) -> Frac {
    f3_dot(m.r0, f3_cross(m.r1, m.r2))
}

/// The matrix is diagonal in value: every off-diagonal entry is zero.
pub open spec fn m3_is_diagonal(m: Frac3x3) -> bool {
    &&& frac_is_zero(m.r0.y)
    &&& frac_is_zero(m.r0.z)
    &&& frac_is_zero(m.r1.x)
    &&& frac_is_zero(m.r1.z)
    &&& frac_is_zero(m.r2.x)
    &&& frac_is_zero(m.r2.y)
}

/// An exact 3x3 matrix of rational scalars, as rows.
#[derive(Clone, Copy, Debug)]
pub struct Mat3 {
    pub r0: Vec3,
    pub r1: Vec3,
    pub r2: Vec3,
}

impl View for Mat3 {
    type V = Frac3x3;

    open spec fn view(&self) -> Frac3x3 {
        Frac3x3 { r0: self.r0@, r1: self.r1@, r2: self.r2@ }
    }
}

impl Mat3 {
    pub open spec fn wf(&self) -> bool {
        self.r0.wf() && self.r1.wf() && self.r2.wf()
    }

    /// Builds a matrix from its three rows.
    pub fn from_rows(r0: Vec3, r1: Vec3, r2: Vec3) -> (r: Mat3)
        ensures
            r == (Mat3 { r0, r1, r2 }),
    {
        Mat3 { r0, r1, r2 }
    }

    /// Builds the diagonal matrix with the given diagonal entries.
    pub fn diagonal(d0: Rat, d1: Rat, d2: Rat) -> (r: Mat3)
        ensures
            d0.wf() && d1.wf() && d2.wf() ==> r.wf() && m3_is_diagonal(r@),
            r@.r0.x == d0@ && r@.r1.y == d1@ && r@.r2.z == d2@,
            f3_is_zero(Frac3 { x: r@.r0.y, y: r@.r0.z, z: r@.r1.x }),
            f3_is_zero(Frac3 { x: r@.r1.z, y: r@.r2.x, z: r@.r2.y }),
    {
        Mat3 {
            r0: Vec3::new(d0, Rat::zero(), Rat::zero()),
            r1: Vec3::new(Rat::zero(), d1, Rat::zero()),
            r2: Vec3::new(Rat::zero(), Rat::zero(), d2),
        }
    }

    /// The exact matrix-vector product.
    pub fn mul_vec(&self, v: &Vec3) -> (r: Option<Vec3>)
        requires
            self.wf(),
            v.wf(),
        ensures
            r matches Some(p) ==> p.wf() && p@ == m3_mul_vec(self@, v@),
            r is Some <==> f3_dot_fits(self@.r0, v@) && f3_dot_fits(self@.r1, v@) && f3_dot_fits(
                self@.r2,
                v@,
            ),
    {
        let x = self.r0.dot(v)?;
        let y = self.r1.dot(v)?;
        let z = self.r2.dot(v)?;
        Some(Vec3::new(x, y, z))
    }

    /// The exact determinant.
    pub fn det(&self) -> (r: Option<Rat>)
        requires
            self.wf(),
        ensures
            r matches Some(d) ==> d.wf() && d@ == m3_det(self@),
            r is Some <==> f3_cross_fits(self@.r1, self@.r2) && f3_dot_fits(
                self@.r0,
                f3_cross(self@.r1, self@.r2),
            ),
    {
        let c = self.r1.cross(&self.r2)?;
        self.r0.dot(&c)
    }
}

} // verus!
