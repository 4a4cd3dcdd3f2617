//! Per-entity simulation state.
//!
//! A simulated body carries a spatial state (position and orientation),
//! its linear and angular velocity, its inertia tensor, and a constant
//! acceleration field.  The `Simulated` marker designates entities that
//! take part in the per-tick update; removing it freezes a body without
//! discarding its motion state.

use vstd::prelude::*;

use crate::inertia::Inertia;
use crate::quaternion::{Frac4, Quat, f4_identity, f4_is_zero};
use crate::rational::{Frac, Rat, frac_int};
use crate::vector::{Frac3, Vec3, f3_add, f3_add_fits, f3_scale, f3_scale_fits, f3_zero};

verus! {

/// Marker that designates entities to be simulated.
///
/// Remove to easily stop something from being simulated.
#[derive(Clone, Copy, Debug)]
pub struct Simulated;

/// Stores the current translational velocity, as a vector in world
/// coordinates.
#[derive(Clone, Copy, Debug)]
pub struct Velocity(pub Vec3);

/// Stores the current angular velocity, as a vector in world coordinates
/// (radians per second about each axis).
#[derive(Clone, Copy, Debug)]
pub struct AngularVelocity(pub Vec3);

/// Applies a constant acceleration, as a vector in world coordinates.
#[derive(Clone, Copy, Debug)]
pub struct Accelerator(pub Vec3);

/// A body's spatial state: where it is and how it is turned.
///
/// The orientation is a homogeneous quaternion: any nonzero multiple
/// stands for the same rotation, and well-formedness keeps it nonzero.
#[derive(Clone, Copy, Debug)]
pub struct Spatial {
    pub position: Vec3,
    pub orientation: Quat,
}

impl View for Velocity {
    type V = Frac3;

    open spec fn view(&self) -> Frac3 {
        self.0@
    }
}

impl View for AngularVelocity {
    type V = Frac3;

    open spec fn view(&self) -> Frac3 {
        self.0@
    }
}

impl View for Accelerator {
    type V = Frac3;

    open spec fn view(&self) -> Frac3 {
        self.0@
    }
}

impl Velocity {
    pub open spec fn wf(&self) -> bool {
        self.0.wf()
    }

    /// A body at rest.
    pub fn zero() -> (r: Velocity)
        ensures
            r.wf(),
            r@ == f3_zero(),
    {
        Velocity(Vec3::zero())
    }

    /// Accelerates this velocity over a time span: `v += acc * delta`.
    ///
    /// Applied once with half the tick before the positional update and
    /// once with half the tick after it.  On `false` the velocity is
    /// unchanged: the exact increment left the machine range.
    pub fn accelerate(&mut self, acc: &Accelerator, delta: &Rat) -> (ok: bool)
        requires
            old(self).wf(),
            acc.wf(),
            delta.wf(),
        ensures
            ok ==> final(self).wf() && final(self)@ == f3_add(
                old(self)@,
                f3_scale(delta@, acc@),
            ),
            !ok ==> *final(self) == *old(self),
            ok <==> f3_scale_fits(delta@, acc@) && f3_add_fits(old(self)@, f3_scale(delta@, acc@)),
    {
        match acc.0.scale(delta) {
            Some(d) => match self.0.add(&d) {
                Some(v) => {
                    self.0 = v;
                    true
                },
                None => false,
            },
            None => false,
        }
    }
}

impl AngularVelocity {
    pub open spec fn wf(&self) -> bool {
        self.0.wf()
    }

    /// A body that is not spinning.
    pub fn zero() -> (r: AngularVelocity)
        ensures
            r.wf(),
            r@ == f3_zero(),
    {
        AngularVelocity(Vec3::zero())
    }
}

impl Accelerator {
    pub open spec fn wf(&self) -> bool {
        self.0.wf()
    }

    /// An accelerator that does not accelerate in any direction.
    pub fn zero() -> (r: Accelerator)
        ensures
            r.wf(),
            r@ == f3_zero(),
    {
        Accelerator(Vec3::zero())
    }

    /// Returns an accelerator that simulates gravity: a constant
    /// acceleration of 9.82 m/s^2 downward along the y axis.
    pub fn gravity() -> (r: Accelerator)
        ensures
            r.wf(),
            r@.x == frac_int(0),
            r@.y == (Frac { n: -491, d: 50 }),
            r@.z == frac_int(0),
    {
        Accelerator(Vec3::new(Rat::zero(), Rat::from_parts(-491, 50), Rat::zero()))
    }
}

impl Spatial {
    pub open spec fn wf(&self) -> bool {
        self.position.wf() && self.orientation.wf() && !f4_is_zero(self.orientation@)
    }

    /// A body at the origin with the identity orientation.
    pub fn origin() -> (r: Spatial)
        ensures
            r.wf(),
            r.position@ == f3_zero(),
            r.orientation@ == f4_identity(),
    {
        Spatial { position: Vec3::zero(), orientation: Quat::identity() }
    }

    /// A body at the given position and orientation.
    pub fn new(position: Vec3, orientation: Quat) -> (r: Spatial)
        requires
            position.wf(),
            orientation.wf(),
            !f4_is_zero(orientation@),
        ensures
            r.wf(),
            r == (Spatial { position, orientation }),
    {
        Spatial { position, orientation }
    }
}

/// Everything a freshly spawned simulated entity carries.
#[derive(Clone, Copy, Debug)]
pub struct SimulationBundle {
    pub spatial: Spatial,
    pub sim: Simulated,
    pub vel: Velocity,
    pub angvel: AngularVelocity,
    pub inertia: Inertia,
    pub acc: Accelerator,
}

impl SimulationBundle {
    pub open spec fn wf(&self) -> bool {
        self.spatial.wf() && self.vel.wf() && self.angvel.wf() && self.inertia.wf()
            && self.acc.wf()
    }

    /// Bundles up a new entity at the origin.
    pub fn new(vel: Velocity, acc: Accelerator, angvel: AngularVelocity, inertia: Inertia) -> (r:
        SimulationBundle)
        ensures
            r.spatial.position@ == f3_zero(),
            r.spatial.orientation@ == f4_identity(),
            r.vel == vel,
            r.angvel == angvel,
            r.inertia == inertia,
            r.acc == acc,
            vel.wf() && acc.wf() && angvel.wf() && inertia.wf() ==> r.wf(),
    {
        SimulationBundle {
            spatial: Spatial::origin(),
            sim: Simulated,
            vel,
            angvel,
            inertia,
            acc,
        }
    }

    /// Bundles up a new entity at the origin that falls under gravity and
    /// starts without spin.
    pub fn new_with_gravity(vel: Velocity, inertia: Inertia) -> (r: SimulationBundle)
        ensures
            r.spatial.position@ == f3_zero(),
            r.spatial.orientation@ == f4_identity(),
            r.vel == vel,
            r.angvel@ == f3_zero(),
            r.inertia == inertia,
            r.acc@.x == frac_int(0),
            r.acc@.y == (Frac { n: -491, d: 50 }),
            r.acc@.z == frac_int(0),
            vel.wf() && inertia.wf() ==> r.wf(),
    {
        SimulationBundle::new(vel, Accelerator::gravity(), AngularVelocity::zero(), inertia)
    }
}

} // verus!
