//! The per-tick integrator.
//!
//! Once per simulation tick the host hands every entity carrying the
//! `Simulated` marker to `update_simulated`.  Each body is advanced with a
//! symplectic half-step scheme: half the velocity updates before the
//! positional and rotational update, half after.  The acceleration field is
//! constant over the tick, so both half-steps use the same value and the
//! whole tick adds exactly `acceleration * delta` to the velocity.
//!
//! A tick with `delta = 0` is a no-op.  A body whose exact update would
//! leave the machine range is left unchanged for that tick and reported.

use vstd::prelude::*;
use vstd::pervasive::VecAdditionalExecFns;

use crate::components::{Accelerator, AngularVelocity, SimulationBundle, Spatial, Velocity};
use crate::force::{Moment, lemma_torque_rep_eq, moment_parts_fits, moment_torque_rep};
use crate::inertia::{
    Inertia, inv_mul_fits, lemma_inv_mul_congruence, lemma_inv_mul_wf, m3_inv_mul,
};
use crate::matrix::m3_det;
use crate::matrix::Frac3x3;
use crate::quaternion::{
    Frac4, Quat, f4_from_half_vector, f4_is_zero, f4_mul, f4_mul_fits,
};
use crate::rational::{
    Frac, Rat, frac_add, frac_div, frac_eq, frac_fits, frac_int, frac_is_zero, frac_mul, frac_wf,
    lemma_frac_div_whole, lemma_frac_int_step, lemma_frac_scale_sum,
};
use crate::vector::{
    Frac3, Vec3, f3_add, f3_add_fits, f3_cross, f3_eq, f3_is_zero, f3_scale, f3_scale_fits,
    f3_wf, f3_zero, lemma_f3_add_congruence, lemma_f3_add_zero, lemma_f3_eq_trans,
    lemma_f3_half_step, lemma_f3_ops_wf, lemma_f3_scale_congruence, lemma_f3_scale_wf,
    lemma_f3_scale_zero, lemma_f3_scale_zero_vec, lemma_f3_zero_eq,
};

verus! {

/// The acceleration acting on a body: the accelerator's value if it has
/// one, else zero.
pub open spec fn acc_field(acc: Option<&Accelerator>) -> Frac3 {
    match acc {
        Some(a) => a@,
        None => f3_zero(),
    }
}

pub open spec fn acc_field_wf(acc: Option<&Accelerator>) -> bool {
    match acc {
        Some(a) => a.wf(),
        None => true,
    }
}

pub open spec fn moment_wf(moment: Option<&Moment>) -> bool {
    match moment {
        Some(m) => m.wf(),
        None => true,
    }
}

/// The angular acceleration induced this tick: the inverse inertia tensor
/// applied to the decomposed torque, or zero without a moment.
pub open spec fn applied_angacc(inertia: Frac3x3, moment: Option<&Moment>) -> Frac3 {
    match moment {
        Some(m) => m3_inv_mul(inertia, f3_cross(m@.offset, m@.force)),
        None => f3_zero(),
    }
}

/// The same angular acceleration over the exact pair representations the
/// integrator computes.
pub open spec fn applied_angacc_rep(inertia: Frac3x3, moment: Option<&Moment>) -> Frac3 {
    match moment {
        Some(m) => m3_inv_mul(inertia, moment_torque_rep(m@.offset, m@.force)),
        None => f3_zero(),
    }
}

/// Every intermediate of one tick stays in the machine range (and the
/// updated orientation stays a usable, nonzero quaternion).
pub open spec fn tick_fits(
    pos: Frac3,
    orient: Frac4,
    vel: Frac3,
    angvel: Frac3,
    inertia: Frac3x3,
    arep: Frac3,
    moment: Option<&Moment>,
    delta: Frac,
) -> bool {
    let h = frac_div(delta, frac_int(2));
    let alpha = applied_angacc_rep(inertia, moment);
    let vmid = f3_add(vel, f3_scale(h, arep));
    let wmid = f3_add(angvel, f3_scale(h, alpha));
    let hv = f3_scale(h, wmid);
    &&& frac_fits(h)
    &&& match moment {
        Some(m) => moment_parts_fits(m@.offset, m@.force) && inv_mul_fits(
            inertia,
            moment_torque_rep(m@.offset, m@.force),
        ),
        None => true,
    }
    &&& f3_scale_fits(h, arep)
    &&& f3_add_fits(vel, f3_scale(h, arep))
    &&& f3_scale_fits(h, alpha)
    &&& f3_add_fits(angvel, f3_scale(h, alpha))
    &&& f3_scale_fits(delta, vmid)
    &&& f3_add_fits(pos, f3_scale(delta, vmid))
    &&& f3_scale_fits(h, wmid)
    &&& (f3_is_zero(hv) || (f4_mul_fits(f4_from_half_vector(hv), orient) && !f4_is_zero(
        f4_mul(f4_from_half_vector(hv), orient),
    )))
    &&& f3_add_fits(wmid, f3_scale(h, alpha))
    &&& f3_add_fits(vmid, f3_scale(h, arep))
}

/// One exact integration step over a positive tick, computed without
/// touching the inputs: new position, orientation, velocity and angular
/// velocity.
fn integrate(
    spatial: &Spatial,
    vel: &Velocity,
    angvel: &AngularVelocity,
    inertia: &Inertia,
    acc: Option<&Accelerator>,
    moment: Option<&Moment>,
    delta: &Rat,
) -> (r: Option<(Vec3, Quat, Vec3, Vec3)>)
    requires
        spatial.wf(),
        vel.wf(),
        angvel.wf(),
        inertia.wf(),
        acc_field_wf(acc),
        moment_wf(moment),
        delta.wf(),
    ensures
        r matches Some(o) ==> ({
            let h = frac_div(delta@, frac_int(2));
            let arep = acc_field(acc);
            let alpha = applied_angacc_rep(inertia@, moment);
            let vmid = f3_add(vel@, f3_scale(h, arep));
            let wmid = f3_add(angvel@, f3_scale(h, alpha));
            let hv = f3_scale(h, wmid);
            &&& o.0.wf() && o.1.wf() && o.2.wf() && o.3.wf()
            &&& o.0@ == f3_add(spatial.position@, f3_scale(delta@, vmid))
            &&& (f3_is_zero(hv) ==> o.1 == spatial.orientation)
            &&& (!f3_is_zero(hv) ==> o.1@ == f4_mul(
                f4_from_half_vector(hv),
                spatial.orientation@,
            ))
            &&& !f4_is_zero(o.1@)
            &&& o.2@ == f3_add(vmid, f3_scale(h, arep))
            &&& o.3@ == f3_add(wmid, f3_scale(h, alpha))
        }),
        r is Some <==> tick_fits(
            spatial.position@,
            spatial.orientation@,
            vel@,
            angvel@,
            inertia@,
            acc_field(acc),
            moment,
            delta@,
        ),
{
    let half_delta = delta.div(&Rat::from_int(2))?;
    let a = match acc {
        Some(x) => *x,
        None => Accelerator::zero(),
    };
    let alpha = match moment {
        Some(m) => {
            let tq = match m.get_torque() {
                Some(t) => t,
                None => {
                    return None;
                },
            };
            match inertia.get_angular_acceleration(&tq) {
                Some(al) => al,
                None => {
                    return None;
                },
            }
        },
        None => Vec3::zero(),
    };
    let vmid = vel.0.add(&a.0.scale(&half_delta)?)?;
    let wmid = angvel.0.add(&alpha.scale(&half_delta)?)?;
    let new_pos = spatial.position.add(&vmid.scale(delta)?)?;
    let hv = wmid.scale(&half_delta)?;
    let new_orient = if hv.is_zero() {
        spatial.orientation
    } else {
        let u = Quat { w: Rat::one(), x: hv.x, y: hv.y, z: hv.z };
        let q2 = u.mul(&spatial.orientation)?;
        if q2.is_zero() {
            return None;
        }
        q2
    };
    let new_angvel = wmid.add(&alpha.scale(&half_delta)?)?;
    let new_vel = vmid.add(&a.0.scale(&half_delta)?)?;
    Some((new_pos, new_orient, new_vel, new_angvel))
}

/// Advances one body by one tick.
///
/// Resolves the acceleration field and the applied moment, decomposes the
/// moment into torque and angular acceleration, and applies the symplectic
/// half-step update to velocity, angular velocity, position and
/// orientation.  A zero `delta` is an exact no-op.  When the exact update
/// would leave the machine range (or the inertia tensor is singular while a
/// moment is applied), the body is left entirely unchanged and `false` is
/// returned.
pub fn tick(
    spatial: &mut Spatial,
    vel: &mut Velocity,
    angvel: &mut AngularVelocity,
    inertia: &Inertia,
    acc: Option<&Accelerator>,
    moment: Option<&Moment>,
    delta: &Rat,
) -> (ok: bool)
    requires
        old(spatial).wf(),
        old(vel).wf(),
        old(angvel).wf(),
        inertia.wf(),
        acc_field_wf(acc),
        moment_wf(moment),
        delta.wf(),
    ensures
        ok ==> final(spatial).wf() && final(vel).wf() && final(angvel).wf(),
        !ok ==> *final(spatial) == *old(spatial) && *final(vel) == *old(vel) && *final(angvel)
            == *old(angvel),
        frac_is_zero(delta@) ==> ok && *final(spatial) == *old(spatial) && *final(vel) == *old(
            vel,
        ) && *final(angvel) == *old(angvel),
        ok <==> frac_is_zero(delta@) || tick_fits(
            old(spatial).position@,
            old(spatial).orientation@,
            old(vel)@,
            old(angvel)@,
            inertia@,
            acc_field(acc),
            moment,
            delta@,
        ),
        ok && !frac_is_zero(delta@) ==> ({
            let h = frac_div(delta@, frac_int(2));
            let arep = acc_field(acc);
            let alpha = applied_angacc_rep(inertia@, moment);
            let vmid = f3_add(old(vel)@, f3_scale(h, arep));
            let wmid = f3_add(old(angvel)@, f3_scale(h, alpha));
            let hv = f3_scale(h, wmid);
            &&& final(spatial).position@ == f3_add(old(spatial).position@, f3_scale(delta@, vmid))
            &&& (f3_is_zero(hv) ==> final(spatial).orientation == old(spatial).orientation)
            &&& (!f3_is_zero(hv) ==> final(spatial).orientation@ == f4_mul(
                f4_from_half_vector(hv),
                old(spatial).orientation@,
            ))
            &&& final(vel)@ == f3_add(vmid, f3_scale(h, arep))
            &&& final(angvel)@ == f3_add(wmid, f3_scale(h, alpha))
        }),
        ok && !frac_is_zero(delta@) ==> f3_eq(
            final(vel)@,
            f3_add(old(vel)@, f3_scale(delta@, acc_field(acc))),
        ),
        ok && !frac_is_zero(delta@) ==> f3_eq(
            final(angvel)@,
            f3_add(old(angvel)@, f3_scale(delta@, applied_angacc(inertia@, moment))),
        ),
{
    if delta.is_zero() {
        return true;
    }
    match integrate(spatial, vel, angvel, inertia, acc, moment, delta) {
        Some(out) => {
            proof {
                let arep = acc_field(acc);
                let alphar = applied_angacc_rep(inertia@, moment);
                vel.0.lemma_wf_frac();
                angvel.0.lemma_wf_frac();
                delta.lemma_wf_frac();
                out.2.lemma_wf_frac();
                out.3.lemma_wf_frac();
                if let Some(a) = acc {
                    a.0.lemma_wf_frac();
                }
                lemma_f3_half_step(vel.0@, arep, delta@);
                match moment {
                    Some(m) => {
                        m.lemma_wf_frac();
                        let o = m@.offset;
                        let f = m@.force;
                        let alphas = m3_inv_mul(inertia@, f3_cross(o, f));
                        inertia.0.r0.lemma_wf_frac();
                        inertia.0.r1.lemma_wf_frac();
                        inertia.0.r2.lemma_wf_frac();
                        lemma_f3_ops_wf(o, f);
                        lemma_torque_rep_eq(o, f);
                        assert(!frac_is_zero(m3_det(inertia@)));
                        lemma_inv_mul_wf(inertia@, moment_torque_rep(o, f));
                        lemma_inv_mul_wf(inertia@, f3_cross(o, f));
                        lemma_inv_mul_congruence(
                            inertia@,
                            moment_torque_rep(o, f),
                            f3_cross(o, f),
                        );
                        lemma_f3_half_step(angvel.0@, alphar, delta@);
                        lemma_f3_scale_congruence(delta@, alphar, delta@, alphas);
                        lemma_f3_scale_wf(delta@, alphar);
                        lemma_f3_scale_wf(delta@, alphas);
                        lemma_f3_add_congruence(
                            angvel.0@,
                            f3_scale(delta@, alphar),
                            angvel.0@,
                            f3_scale(delta@, alphas),
                        );
                        lemma_f3_ops_wf(angvel.0@, f3_scale(delta@, alphar));
                        lemma_f3_ops_wf(angvel.0@, f3_scale(delta@, alphas));
                        lemma_f3_eq_trans(
                            out.3@,
                            f3_add(angvel.0@, f3_scale(delta@, alphar)),
                            f3_add(angvel.0@, f3_scale(delta@, alphas)),
                        );
                    },
                    None => {
                        lemma_f3_half_step(angvel.0@, alphar, delta@);
                    },
                }
            }
            spatial.position = out.0;
            spatial.orientation = out.1;
            vel.0 = out.2;
            angvel.0 = out.3;
            true
        },
        None => false,
    }
}

/// What one tick leaves of one bundled entity whose exact update fits: the
/// inertia tensor and the accelerator are untouched, and the motion state
/// advances by the symplectic step.
pub open spec fn bundle_stepped(
    oe: SimulationBundle,
    ne: SimulationBundle,
    moment: Option<&Moment>,
    delta: Frac,
) -> bool {
    let h = frac_div(delta, frac_int(2));
    let arep = oe.acc@;
    let alpha = applied_angacc_rep(oe.inertia@, moment);
    let vmid = f3_add(oe.vel@, f3_scale(h, arep));
    let wmid = f3_add(oe.angvel@, f3_scale(h, alpha));
    let hv = f3_scale(h, wmid);
    &&& ne.inertia == oe.inertia
    &&& ne.acc == oe.acc
    &&& ne.wf()
    &&& ne.spatial.position@ == f3_add(oe.spatial.position@, f3_scale(delta, vmid))
    &&& (f3_is_zero(hv) ==> ne.spatial.orientation == oe.spatial.orientation)
    &&& (!f3_is_zero(hv) ==> ne.spatial.orientation@ == f4_mul(
        f4_from_half_vector(hv),
        oe.spatial.orientation@,
    ))
    &&& ne.vel@ == f3_add(vmid, f3_scale(h, arep))
    &&& ne.angvel@ == f3_add(wmid, f3_scale(h, alpha))
    &&& f3_eq(ne.vel@, f3_add(oe.vel@, f3_scale(delta, oe.acc@)))
    &&& f3_eq(ne.angvel@, f3_add(oe.angvel@, f3_scale(delta, applied_angacc(oe.inertia@, moment))))
}

/// Whether one bundled entity's exact update stays in the machine range
/// this tick.
pub open spec fn bundle_fits(e: SimulationBundle, moment: Option<&Moment>, delta: Frac) -> bool {
    tick_fits(
        e.spatial.position@,
        e.spatial.orientation@,
        e.vel@,
        e.angvel@,
        e.inertia@,
        e.acc@,
        moment,
        delta,
    )
}

/// Advances every simulated entity by one tick.
///
/// The host passes exactly the entities that currently carry the
/// `Simulated` marker, the elapsed seconds, and the moment driving the
/// bodies this tick (if any).  Each entity is updated independently; one
/// whose exact update would leave the machine range is left unchanged for
/// this tick, and the call reports whether every entity advanced.
pub fn update_simulated(
    delta: &Rat,
    entities: &mut Vec<SimulationBundle>,
    moment: Option<&Moment>,
) -> (ok: bool)
    requires
        delta.wf(),
        moment_wf(moment),
        forall|i: int| 0 <= i < old(entities)@.len() ==> #[trigger] old(entities)@[i].wf(),
    ensures
        final(entities)@.len() == old(entities)@.len(),
        forall|i: int|
            0 <= i < old(entities)@.len() ==> {
                let oe = #[trigger] old(entities)@[i];
                let ne = final(entities)@[i];
                if frac_is_zero(delta@) {
                    ne == oe
                } else if bundle_fits(oe, moment, delta@) {
                    bundle_stepped(oe, ne, moment, delta@)
                } else {
                    ne == oe
                }
            },
        ok <==> forall|i: int|
            0 <= i < old(entities)@.len() ==> frac_is_zero(delta@) || bundle_fits(
                #[trigger] old(entities)@[i],
                moment,
                delta@,
            ),
{
    let mut ok = true;
    let n = entities.len();
    let mut i: usize = 0;
    while i < n
        invariant
            0 <= i <= n,
            n == entities@.len(),
            entities@.len() == old(entities)@.len(),
            delta.wf(),
            moment_wf(moment),
            forall|j: int| 0 <= j < old(entities)@.len() ==> #[trigger] old(entities)@[j].wf(),
            forall|j: int| i <= j < n ==> #[trigger] entities@[j] == old(entities)@[j],
            forall|j: int|
                0 <= j < i ==> {
                    let oe = #[trigger] old(entities)@[j];
                    let ne = entities@[j];
                    if frac_is_zero(delta@) {
                        ne == oe
                    } else if bundle_fits(oe, moment, delta@) {
                        bundle_stepped(oe, ne, moment, delta@)
                    } else {
                        ne == oe
                    }
                },
            ok <==> forall|j: int|
                0 <= j < i ==> frac_is_zero(delta@) || bundle_fits(
                    #[trigger] old(entities)@[j],
                    moment,
                    delta@,
                ),
        decreases n - i,
    {
        let e = entities[i];
        proof {
            assert(entities@[i as int] == old(entities)@[i as int]);
            assert(old(entities)@[i as int].wf());
        }
        let mut spatial = e.spatial;
        let mut vel = e.vel;
        let mut angvel = e.angvel;
        let stepped = tick(
            &mut spatial,
            &mut vel,
            &mut angvel,
            &e.inertia,
            Some(&e.acc),
            moment,
            delta,
        );
        entities.set(
            i,
            SimulationBundle {
                spatial,
                sim: e.sim,
                vel,
                angvel,
                inertia: e.inertia,
                acc: e.acc,
            },
        );
        ok = ok && stepped;
        i = i + 1;
    }
    ok
}

/// A unit that a host mounts to run the simulation: one call to `run` per
/// frame performs the whole per-tick update pass.
#[derive(Clone, Copy, Debug)]
pub struct SimulatiorPlugin;

impl SimulatiorPlugin {
    /// One frame of the simulation pass: advances every simulated entity.
    pub fn run(
        &self,
        delta: &Rat,
        entities: &mut Vec<SimulationBundle>,
        moment: Option<&Moment>,
    ) -> (ok: bool)
        requires
            delta.wf(),
            moment_wf(moment),
            forall|i: int| 0 <= i < old(entities)@.len() ==> #[trigger] old(entities)@[i].wf(),
        ensures
            final(entities)@.len() == old(entities)@.len(),
            forall|i: int|
                0 <= i < old(entities)@.len() ==> {
                    let oe = #[trigger] old(entities)@[i];
                    let ne = final(entities)@[i];
                    if frac_is_zero(delta@) {
                        ne == oe
                    } else if bundle_fits(oe, moment, delta@) {
                        bundle_stepped(oe, ne, moment, delta@)
                    } else {
                        ne == oe
                    }
                },
            ok <==> forall|i: int|
                0 <= i < old(entities)@.len() ==> frac_is_zero(delta@) || bundle_fits(
                    #[trigger] old(entities)@[i],
                    moment,
                    delta@,
                ),
    {
        update_simulated(delta, entities, moment)
    }
}

/// Pure translation: with a zero-valued acceleration field, one tick moves
/// the position by exactly `velocity * delta` and leaves the velocity
/// unchanged.  The position formula is the one `tick` establishes, with the
/// mid-step velocity collapsing to the initial velocity.
pub proof fn lemma_pure_translation(p: Frac3, v: Frac3, arep: Frac3, delta: Frac)
    requires
        f3_wf(p),
        f3_wf(v),
        f3_wf(arep),
        frac_wf(delta),
        f3_is_zero(arep),
    ensures
        f3_eq(
            f3_add(p, f3_scale(delta, f3_add(v, f3_scale(frac_div(delta, frac_int(2)), arep)))),
            f3_add(p, f3_scale(delta, v)),
        ),
        f3_eq(f3_add(v, f3_scale(delta, arep)), v),
{
    let h = frac_div(delta, frac_int(2));
    crate::rational::lemma_frac_div_wf(delta, frac_int(2));
    let vmid = f3_add(v, f3_scale(h, arep));
    lemma_f3_scale_zero_vec(h, arep);
    lemma_f3_scale_wf(h, arep);
    lemma_f3_add_zero(v, f3_scale(h, arep));
    lemma_f3_ops_wf(v, f3_scale(h, arep));
    lemma_f3_scale_congruence(delta, vmid, delta, v);
    lemma_f3_scale_wf(delta, vmid);
    lemma_f3_scale_wf(delta, v);
    lemma_f3_add_congruence(p, f3_scale(delta, vmid), p, f3_scale(delta, v));
    lemma_f3_scale_zero_vec(delta, arep);
    lemma_f3_scale_wf(delta, arep);
    lemma_f3_add_zero(v, f3_scale(delta, arep));
}

/// The velocity after `n` equal sub-steps under a constant acceleration
/// field, each sub-step adding `delta * a` as one call of `tick` does.
pub open spec fn velocity_after(v0: Frac3, a: Frac3, delta: Frac, n: nat) -> Frac3
    decreases n,
{
    if n == 0 {
        v0
    } else {
        f3_add(velocity_after(v0, a, delta, (n - 1) as nat), f3_scale(delta, a))
    }
}

/// Under a constant field the velocity gained over `n` sub-steps of size
/// `delta` is exactly `n * delta * a`: the symplectic scheme does not
/// drift.
pub proof fn lemma_constant_field_velocity(v0: Frac3, a: Frac3, delta: Frac, n: nat)
    requires
        f3_wf(v0),
        f3_wf(a),
        frac_wf(delta),
    ensures
        f3_eq(
            velocity_after(v0, a, delta, n),
            f3_add(v0, f3_scale(frac_mul(frac_int(n as int), delta), a)),
        ),
        f3_wf(velocity_after(v0, a, delta, n)),
    decreases n,
{
    lemma_f3_scale_wf(delta, a);
    crate::rational::lemma_frac_ops_wf(frac_int(n as int), delta);
    lemma_f3_scale_wf(frac_mul(frac_int(n as int), delta), a);
    lemma_f3_ops_wf(v0, f3_scale(frac_mul(frac_int(n as int), delta), a));
    if n == 0 {
        vstd::arithmetic::mul::lemma_mul_by_zero_is_zero(delta.n);
        lemma_f3_scale_zero(frac_mul(frac_int(0), delta), a);
        lemma_f3_add_zero(v0, f3_scale(frac_mul(frac_int(0), delta), a));
    } else {
        let m = (n - 1) as nat;
        lemma_constant_field_velocity(v0, a, delta, m);
        let prev = velocity_after(v0, a, delta, m);
        let k1 = frac_mul(frac_int(m as int), delta);
        lemma_f3_scale_wf(k1, a);
        lemma_f3_ops_wf(v0, f3_scale(k1, a));
        lemma_f3_ops_wf(prev, f3_scale(delta, a));
        lemma_f3_ops_wf(f3_add(v0, f3_scale(k1, a)), f3_scale(delta, a));
        lemma_f3_add_congruence(
            prev,
            f3_scale(delta, a),
            f3_add(v0, f3_scale(k1, a)),
            f3_scale(delta, a),
        );
        lemma_f3_step_shift(v0, a, delta, m as int);
        lemma_f3_eq_trans(
            f3_add(prev, f3_scale(delta, a)),
            f3_add(f3_add(v0, f3_scale(k1, a)), f3_scale(delta, a)),
            f3_add(v0, f3_scale(frac_mul(frac_int(n as int), delta), a)),
        );
    }
}

/// One more sub-step on top of `m` sub-steps amounts to `m + 1` sub-steps.
proof fn lemma_f3_step_shift(v0: Frac3, a: Frac3, delta: Frac, m: int)
    requires
        f3_wf(v0),
        f3_wf(a),
        frac_wf(delta),
    ensures
        f3_eq(
            f3_add(f3_add(v0, f3_scale(frac_mul(frac_int(m), delta), a)), f3_scale(delta, a)),
            f3_add(v0, f3_scale(frac_mul(frac_int(m + 1), delta), a)),
        ),
{
    let k1 = frac_mul(frac_int(m), delta);
    let k2 = frac_mul(frac_int(m + 1), delta);
    lemma_f3_step_shift_component(v0.x, a.x, delta, m);
    lemma_f3_step_shift_component(v0.y, a.y, delta, m);
    lemma_f3_step_shift_component(v0.z, a.z, delta, m);
}

/// One component of the step-counting law.
proof fn lemma_f3_step_shift_component(v: Frac, x: Frac, delta: Frac, m: int)
    requires
        frac_wf(v),
        frac_wf(x),
        frac_wf(delta),
    ensures
        frac_eq(
            frac_add(frac_add(v, frac_mul(frac_mul(frac_int(m), delta), x)), frac_mul(delta, x)),
            frac_add(v, frac_mul(frac_mul(frac_int(m + 1), delta), x)),
        ),
{
    let k1 = frac_mul(frac_int(m), delta);
    let k2 = frac_mul(frac_int(m + 1), delta);
    let p1 = frac_mul(k1, x);
    let p2 = frac_mul(delta, x);
    crate::rational::lemma_frac_ops_wf(frac_int(m), delta);
    crate::rational::lemma_frac_ops_wf(frac_int(m + 1), delta);
    crate::rational::lemma_frac_ops_wf(k1, x);
    crate::rational::lemma_frac_ops_wf(k2, x);
    crate::rational::lemma_frac_ops_wf(delta, x);
    crate::rational::lemma_frac_ops_wf(p1, p2);
    crate::rational::lemma_frac_ops_wf(k1, delta);
    crate::rational::lemma_frac_ops_wf(frac_add(k1, delta), x);
    crate::rational::lemma_frac_add_assoc(v, p1, p2);
    lemma_frac_scale_sum(k1, delta, x);
    lemma_frac_int_step(m, delta);
    crate::rational::lemma_frac_mul_congruence(frac_add(k1, delta), x, k2, x);
    crate::rational::lemma_frac_eq_trans(frac_add(p1, p2), frac_mul(frac_add(k1, delta), x), frac_mul(k2, x));
    crate::rational::lemma_frac_add_congruence(v, frac_add(p1, p2), v, frac_mul(k2, x));
    crate::rational::lemma_frac_ops_wf(v, frac_add(p1, p2));
    crate::rational::lemma_frac_ops_wf(v, frac_mul(k2, x));
    crate::rational::lemma_frac_ops_wf(v, p1);
    crate::rational::lemma_frac_ops_wf(frac_add(v, p1), p2);
    crate::rational::lemma_frac_eq_trans(
        frac_add(frac_add(v, p1), p2),
        frac_add(v, frac_add(p1, p2)),
        frac_add(v, frac_mul(k2, x)),
    );
}

/// With sub-steps of size `span / n`, `n` sub-steps restore the whole span:
/// the final velocity is `v0 + span * a` no matter how finely the span was
/// split.
pub proof fn lemma_substep_count_irrelevant(v0: Frac3, a: Frac3, span: Frac, n: nat)
    requires
        f3_wf(v0),
        f3_wf(a),
        frac_wf(span),
        n > 0,
    ensures
        f3_eq(
            velocity_after(v0, a, frac_div(span, frac_int(n as int)), n),
            f3_add(v0, f3_scale(span, a)),
        ),
{
    let delta = frac_div(span, frac_int(n as int));
    crate::rational::lemma_frac_div_wf(span, frac_int(n as int));
    lemma_constant_field_velocity(v0, a, delta, n);
    lemma_frac_div_whole(n as int, span);
    let k = frac_mul(frac_int(n as int), delta);
    lemma_f3_scale_congruence(k, a, span, a);
    crate::rational::lemma_frac_ops_wf(frac_int(n as int), delta);
    lemma_f3_scale_wf(k, a);
    lemma_f3_scale_wf(span, a);
    lemma_f3_add_congruence(v0, f3_scale(k, a), v0, f3_scale(span, a));
    lemma_f3_ops_wf(v0, f3_scale(k, a));
    lemma_f3_ops_wf(v0, f3_scale(span, a));
    lemma_f3_eq_trans(
        velocity_after(v0, a, delta, n),
        f3_add(v0, f3_scale(k, a)),
        f3_add(v0, f3_scale(span, a)),
    );
}

} // verus!
