//! Exact quaternions.
//!
//! Orientations are carried as homogeneous quaternions over rational
//! scalars: a nonzero quaternion stands for the rotation of its
//! normalization, so any positive multiple represents the same orientation.
//! This keeps composition exact; hosts renormalize only when converting to
//! machine floats.

use vstd::prelude::*;

use crate::rational::{
    Frac, Rat, frac_add, frac_eq, frac_fits, frac_int, frac_is_zero, frac_mul, frac_sub,
};
use crate::vector::Frac3;

verus! {

/// Mathematical value of a quaternion: four fractions, scalar part first.
pub ghost struct Frac4 {
    pub w: Frac,
    pub x: Frac,
    pub y: Frac,
    pub z: Frac,
}

pub open spec fn f4_wf(q: Frac4) -> bool {
    &&& q.w.d > 0
    &&& q.x.d > 0
    &&& q.y.d > 0
    &&& q.z.d > 0
}

pub open spec fn f4_eq(a: Frac4, b: Frac4) -> bool {
    frac_eq(a.w, b.w) && frac_eq(a.x, b.x) && frac_eq(a.y, b.y) && frac_eq(a.z, b.z)
}

pub open spec fn f4_is_zero(q: Frac4) -> bool {
    frac_is_zero(q.w) && frac_is_zero(q.x) && frac_is_zero(q.y) && frac_is_zero(q.z)
}

pub open spec fn f4_identity() -> Frac4 {
    Frac4 { w: frac_int(1), x: frac_int(0), y: frac_int(0), z: frac_int(0) }
}

/// A delta rotation for a small rotation vector `v`: the first-order
/// quaternion `1 + (v/2)`, whose vector part is half the rotation vector.
pub open spec fn f4_from_half_vector(h: Frac3) -> Frac4 {
    Frac4 { w: frac_int(1), x: h.x, y: h.y, z: h.z }
}

/// The Hamilton product.
pub open spec fn f4_mul(a: Frac4, b: Frac4) -> Frac4 {
    Frac4 {
        w: frac_sub(
            frac_sub(frac_sub(frac_mul(a.w, b.w), frac_mul(a.x, b.x)), frac_mul(a.y, b.y)),
            frac_mul(a.z, b.z),
        ),
        x: frac_sub(
            frac_add(frac_add(frac_mul(a.w, b.x), frac_mul(a.x, b.w)), frac_mul(a.y, b.z)),
            frac_mul(a.z, b.y),
        ),
        y: frac_add(
            frac_add(frac_sub(frac_mul(a.w, b.y), frac_mul(a.x, b.z)), frac_mul(a.y, b.w)),
            frac_mul(a.z, b.x),
        ),
        z: frac_add(
            frac_sub(frac_add(frac_mul(a.w, b.z), frac_mul(a.x, b.y)), frac_mul(a.y, b.x)),
            frac_mul(a.z, b.w),
        ),
    }
}

/// Every intermediate of the Hamilton product stays in the machine range.
pub open spec fn f4_mul_fits(a: Frac4, b: Frac4) -> bool {
    &&& frac_fits(frac_mul(a.w, b.w))
    &&& frac_fits(frac_mul(a.x, b.x))
    &&& frac_fits(frac_mul(a.y, b.y))
    &&& frac_fits(frac_mul(a.z, b.z))
    &&& frac_fits(frac_sub(frac_mul(a.w, b.w), frac_mul(a.x, b.x)))
    &&& frac_fits(frac_sub(frac_sub(frac_mul(a.w, b.w), frac_mul(a.x, b.x)), frac_mul(a.y, b.y)))
    &&& frac_fits(f4_mul(a, b).w)
    &&& frac_fits(frac_mul(a.w, b.x))
    &&& frac_fits(frac_mul(a.x, b.w))
    &&& frac_fits(frac_mul(a.y, b.z))
    &&& frac_fits(frac_mul(a.z, b.y))
    &&& frac_fits(frac_add(frac_mul(a.w, b.x), frac_mul(a.x, b.w)))
    &&& frac_fits(frac_add(frac_add(frac_mul(a.w, b.x), frac_mul(a.x, b.w)), frac_mul(a.y, b.z)))
    &&& frac_fits(f4_mul(a, b).x)
    &&& frac_fits(frac_mul(a.w, b.y))
    &&& frac_fits(frac_mul(a.x, b.z))
    &&& frac_fits(frac_mul(a.y, b.w))
    &&& frac_fits(frac_mul(a.z, b.x))
    &&& frac_fits(frac_sub(frac_mul(a.w, b.y), frac_mul(a.x, b.z)))
    &&& frac_fits(frac_add(frac_sub(frac_mul(a.w, b.y), frac_mul(a.x, b.z)), frac_mul(a.y, b.w)))
    &&& frac_fits(f4_mul(a, b).y)
    &&& frac_fits(frac_mul(a.w, b.z))
    &&& frac_fits(frac_mul(a.x, b.y))
    &&& frac_fits(frac_mul(a.y, b.x))
    &&& frac_fits(frac_mul(a.z, b.w))
    &&& frac_fits(frac_add(frac_mul(a.w, b.z), frac_mul(a.x, b.y)))
    &&& frac_fits(frac_sub(frac_add(frac_mul(a.w, b.z), frac_mul(a.x, b.y)), frac_mul(a.y, b.x)))
    &&& frac_fits(f4_mul(a, b).z)
}

/// An exact quaternion, scalar part first.
#[derive(Clone, Copy, Debug)]
pub struct Quat {
    pub w: Rat,
    pub x: Rat,
    pub y: Rat,
    pub z: Rat,
}

impl View for Quat {
    type V = Frac4;

    open spec fn view(&self) -> Frac4 {
        Frac4 { w: self.w@, x: self.x@, y: self.y@, z: self.z@ }
    }
}

impl Quat {
    pub open spec fn wf(&self) -> bool {
        self.w.wf() && self.x.wf() && self.y.wf() && self.z.wf()
    }

    /// The identity rotation.
    pub fn identity() -> (r: Quat)
        ensures
            r.wf(),
            r@ == f4_identity(),
    {
        Quat { w: Rat::one(), x: Rat::zero(), y: Rat::zero(), z: Rat::zero() }
    }

    /// Whether every component is exactly zero (no orientation at all).
    pub fn is_zero(&self) -> (r: bool)
        requires
            self.wf(),
        ensures
            r == f4_is_zero(self@),
    {
        self.w.is_zero() && self.x.is_zero() && self.y.is_zero() && self.z.is_zero()
    }

    /// Exact componentwise value equality.
    pub fn eq_val(&self, rhs: &Quat) -> (r: bool)
        requires
            self.wf(),
            rhs.wf(),
        ensures
            r == f4_eq(self@, rhs@),
    {
        self.w.eq_val(&rhs.w) && self.x.eq_val(&rhs.x) && self.y.eq_val(&rhs.y) && self.z.eq_val(
            &rhs.z,
        )
    }

    /// The exact Hamilton product `self * rhs`.
    pub fn mul(&self, rhs: &Quat) -> (r: Option<Quat>)
        requires
            self.wf(),
            rhs.wf(),
        ensures
            r matches Some(v) ==> v.wf() && v@ == f4_mul(self@, rhs@),
            r is Some <==> f4_mul_fits(self@, rhs@),
    {
        let w = self.w.mul(&rhs.w)?.sub(&self.x.mul(&rhs.x)?)?.sub(&self.y.mul(&rhs.y)?)?.sub(
            &self.z.mul(&rhs.z)?,
        )?;
        let x = self.w.mul(&rhs.x)?.add(&self.x.mul(&rhs.w)?)?.add(&self.y.mul(&rhs.z)?)?.sub(
            &self.z.mul(&rhs.y)?,
        )?;
        let y = self.w.mul(&rhs.y)?.sub(&self.x.mul(&rhs.z)?)?.add(&self.y.mul(&rhs.w)?)?.add(
            &self.z.mul(&rhs.x)?,
        )?;
        let z = self.w.mul(&rhs.z)?.add(&self.x.mul(&rhs.y)?)?.sub(&self.y.mul(&rhs.x)?)?.add(
            &self.z.mul(&rhs.w)?,
        )?;
        Some(Quat { w, x, y, z })
    }
}

} // verus!
