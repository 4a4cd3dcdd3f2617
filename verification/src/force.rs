//! Force/torque decomposition.
//!
//! A `Moment` is a force applied at a point offset from an entity's center
//! of mass.  `get_parts` splits it into the radial component, which acts
//! through the center of mass (the `Force`), and the torque produced by the
//! tangential residual (the `Torque`).  The torque always equals
//! `offset x force`: the radial projection contributes nothing to the cross
//! product, which is the main theorem proved here.

use vstd::prelude::*;

use crate::rational::{Frac, frac_div, frac_eq, frac_fits, frac_wf, lemma_frac_div_wf};
use crate::vector::{
    Frac3, Vec3, f3_cross, f3_cross_fits, f3_dot, f3_dot_fits, f3_eq, f3_is_zero, f3_scale,
    f3_scale_fits, f3_sub, f3_sub_fits, f3_wf, f3_zero, lemma_f3_cross_congruence_right,
    lemma_f3_cross_parallel, lemma_f3_cross_scale, lemma_f3_cross_shift, lemma_f3_dot_self_zero,
    lemma_f3_eq_trans, lemma_f3_ops_wf, lemma_f3_scale_wf, lemma_f3_zero_eq,
};

verus! {

/// Mathematical value of a moment: the application offset and the force.
pub ghost struct MomentVal {
    pub offset: Frac3,
    pub force: Frac3,
}

/// Represents a force that is not applied at the center of mass.
#[derive(Clone, Copy, Debug)]
pub struct Moment {
    /// Offset of the applied force from the center of mass.
    offset: Vec3,
    /// The force being applied.
    force: Vec3,
}

/// Represents a force applied at the center of mass.
#[derive(Clone, Copy, Debug)]
pub struct Force(pub Vec3);

/// Represents a torque being applied on an object.
#[derive(Clone, Copy, Debug)]
pub struct Torque(pub Vec3);

impl View for Moment {
    type V = MomentVal;

    closed spec fn view(&self) -> MomentVal {
        MomentVal { offset: self.offset@, force: self.force@ }
    }
}

impl View for Force {
    type V = Frac3;

    open spec fn view(&self) -> Frac3 {
        self.0@
    }
}

impl View for Torque {
    type V = Frac3;

    open spec fn view(&self) -> Frac3 {
        self.0@
    }
}

impl Force {
    pub open spec fn wf(&self) -> bool {
        self.0.wf()
    }
}

impl Torque {
    pub open spec fn wf(&self) -> bool {
        self.0.wf()
    }
}

/// The torque of a moment: `offset x force`.  A purely radial force (and in
/// particular a zero offset) yields the zero vector.
pub open spec fn moment_torque(o: Frac3, f: Frac3) -> Frac3 {
    f3_cross(o, f)
}

/// The translational part of a moment: the projection of the force onto the
/// offset direction, or the full force when there is no offset to project
/// onto.
pub open spec fn moment_force(o: Frac3, f: Frac3) -> Frac3 {
    if f3_is_zero(o) {
        f
    } else {
        f3_scale(frac_div(f3_dot(f, o), f3_dot(o, o)), o)
    }
}

/// The exact pair representation of the torque as the decomposition
/// computes it: the cross product of the offset with the tangential
/// residual.  Value-equal to `moment_torque`, which `get_parts` proves.
pub open spec fn moment_torque_rep(o: Frac3, f: Frac3) -> Frac3 {
    if f3_is_zero(o) {
        f3_zero()
    } else {
        f3_cross(o, f3_sub(f, f3_scale(frac_div(f3_dot(f, o), f3_dot(o, o)), o)))
    }
}

/// Every intermediate of the decomposition stays in the machine range.
pub open spec fn moment_parts_fits(o: Frac3, f: Frac3) -> bool {
    f3_is_zero(o) || {
        let lam = frac_div(f3_dot(f, o), f3_dot(o, o));
        let radial = f3_scale(lam, o);
        &&& f3_dot_fits(f, o)
        &&& f3_dot_fits(o, o)
        &&& frac_fits(lam)
        &&& f3_scale_fits(lam, o)
        &&& f3_sub_fits(f, radial)
        &&& f3_cross_fits(o, f3_sub(f, radial))
    }
}

impl Moment {
    pub closed spec fn wf(&self) -> bool {
        self.offset.wf() && self.force.wf()
    }

    /// Publishes that a well-formed moment has well-formed fraction views.
    pub proof fn lemma_wf_frac(&self)
        requires
            self.wf(),
        ensures
            f3_wf(self@.offset),
            f3_wf(self@.force),
    {
        self.offset.lemma_wf_frac();
        self.force.lemma_wf_frac();
    }

    /// Creates a new `Moment` from an offset and a force.
    pub fn new(offset: Vec3, force: Vec3) -> (r: Moment)
        ensures
            r@ == (MomentVal { offset: offset@, force: force@ }),
            offset.wf() && force.wf() ==> r.wf(),
    {
        Moment { offset, force }
    }

    /// Creates a new `Moment` that is just a force with no offset.
    pub fn from_force(force: Vec3) -> (r: Moment)
        ensures
            r@.force == force@,
            r@.offset == f3_zero(),
            force.wf() ==> r.wf(),
    {
        Moment { offset: Vec3::zero(), force }
    }

    /// Splits the moment into its torque and its radial force.
    ///
    /// The returned torque is value-equal to `offset x force`; the returned
    /// force is the radial projection of the applied force.  A moment whose
    /// offset is the zero vector produces no torque and passes the force
    /// through unchanged.  `None` is returned exactly when an intermediate
    /// of the exact computation leaves the machine range.
    pub fn get_parts(&self) -> (r: Option<(Torque, Force)>)
        requires
            self.wf(),
        ensures
            r matches Some(p) ==> p.0.wf() && p.1.wf() && f3_eq(
                p.0@,
                moment_torque(self@.offset, self@.force),
            ) && f3_eq(p.1@, moment_force(self@.offset, self@.force)) && p.0@
                == moment_torque_rep(self@.offset, self@.force) && p.1@ == moment_force(
                self@.offset,
                self@.force,
            ),
            r is Some <==> moment_parts_fits(self@.offset, self@.force),
            f3_is_zero(self@.offset) ==> (r matches Some(p) && p.0@ == f3_zero() && p.1@
                == self@.force),
    {
        proof {
            self.offset.lemma_wf_frac();
            self.force.lemma_wf_frac();
        }
        if self.offset.is_zero() {
            proof {
                lemma_f3_cross_zero_left(self.offset@, self.force@);
                lemma_f3_ops_wf(self.offset@, self.force@);
                lemma_f3_zero_eq(f3_cross(self.offset@, self.force@));
            }
            Some((Torque(Vec3::zero()), Force(self.force)))
        } else {
            let fo = self.force.dot(&self.offset)?;
            let oo = self.offset.dot(&self.offset)?;
            let lam = fo.div(&oo)?;
            let radial = self.offset.scale(&lam)?;
            let resid = self.force.sub(&radial)?;
            let tq = self.offset.cross(&resid)?;
            proof {
                lemma_f3_cross_shift(self.offset@, self.force@, lam@);
                lemma_f3_scale_wf(lam@, self.offset@);
                lam.lemma_wf_frac();
            }
            Some((Torque(tq), Force(radial)))
        }
    }

    /// The torque produced by this moment.
    pub fn get_torque(&self) -> (r: Option<Torque>)
        requires
            self.wf(),
        ensures
            r matches Some(t) ==> t.wf() && f3_eq(t@, moment_torque(self@.offset, self@.force))
                && t@ == moment_torque_rep(self@.offset, self@.force),
            r is Some <==> moment_parts_fits(self@.offset, self@.force),
    {
        match self.get_parts() {
            Some((t, _)) => Some(t),
            None => None,
        }
    }

    /// The part of the force that acts through the center of mass.
    pub fn get_force(&self) -> (r: Option<Force>)
        requires
            self.wf(),
        ensures
            r matches Some(f) ==> f.wf() && f3_eq(f@, moment_force(self@.offset, self@.force)),
            r is Some <==> moment_parts_fits(self@.offset, self@.force),
    {
        match self.get_parts() {
            Some((_, f)) => Some(f),
            None => None,
        }
    }
}

/// With a zero-valued offset the cross product with any force is
/// zero-valued.
proof fn lemma_f3_cross_zero_left(o: Frac3, f: Frac3)
    requires
        f3_is_zero(o),
    ensures
        f3_is_zero(f3_cross(o, f)),
{
    assert((o.y.n * f.z.n) * (o.z.d * f.y.d) - (o.z.n * f.y.n) * (o.y.d * f.z.d) == 0)
        by (nonlinear_arith)
        requires
            o.y.n == 0,
            o.z.n == 0,
    ;
    assert((o.z.n * f.x.n) * (o.x.d * f.z.d) - (o.x.n * f.z.n) * (o.z.d * f.x.d) == 0)
        by (nonlinear_arith)
        requires
            o.z.n == 0,
            o.x.n == 0,
    ;
    assert((o.x.n * f.y.n) * (o.y.d * f.x.d) - (o.y.n * f.x.n) * (o.x.d * f.y.d) == 0)
        by (nonlinear_arith)
        requires
            o.x.n == 0,
            o.y.n == 0,
    ;
}

/// The torque representation the decomposition computes is well-formed and
/// value-equal to `offset x force`.
pub proof fn lemma_torque_rep_eq(o: Frac3, f: Frac3)
    requires
        f3_wf(o),
        f3_wf(f),
    ensures
        f3_wf(moment_torque_rep(o, f)),
        f3_eq(moment_torque_rep(o, f), moment_torque(o, f)),
{
    if f3_is_zero(o) {
        lemma_f3_cross_zero_left(o, f);
        lemma_f3_ops_wf(o, f);
        lemma_f3_zero_eq(f3_cross(o, f));
    } else {
        let lam = frac_div(f3_dot(f, o), f3_dot(o, o));
        lemma_f3_ops_wf(f, o);
        lemma_f3_ops_wf(o, o);
        lemma_f3_dot_self_zero(o);
        lemma_frac_div_wf(f3_dot(f, o), f3_dot(o, o));
        lemma_f3_scale_wf(lam, o);
        lemma_f3_ops_wf(f, f3_scale(lam, o));
        lemma_f3_ops_wf(o, f3_sub(f, f3_scale(lam, o)));
        lemma_f3_cross_shift(o, f, lam);
    }
}

/// A force parallel to the offset produces no torque: for any scale `k`,
/// the torque of offset `o` with force `k o` is zero-valued.
pub proof fn lemma_parallel_force_no_torque(o: Frac3, f: Frac3, k: Frac)
    requires
        f3_wf(o),
        f3_wf(f),
        frac_wf(k),
        f3_eq(f, f3_scale(k, o)),
    ensures
        f3_eq(moment_torque(o, f), f3_zero()),
{
    lemma_f3_scale_wf(k, o);
    lemma_f3_cross_congruence_right(o, f, f3_scale(k, o));
    lemma_f3_cross_parallel(o, k);
    lemma_f3_ops_wf(o, f);
    lemma_f3_ops_wf(o, f3_scale(k, o));
    lemma_f3_zero_eq(f3_cross(o, f3_scale(k, o)));
    lemma_f3_eq_trans(f3_cross(o, f), f3_cross(o, f3_scale(k, o)), f3_zero());
}

/// Scaling either the offset or the force of a moment scales its torque by
/// the same factor.
pub proof fn lemma_torque_linear(o: Frac3, f: Frac3, k: Frac)
    ensures
        f3_eq(moment_torque(f3_scale(k, o), f), f3_scale(k, moment_torque(o, f))),
        f3_eq(moment_torque(o, f3_scale(k, f)), f3_scale(k, moment_torque(o, f))),
{
    lemma_f3_cross_scale(o, f, k);
}

} // verus!
