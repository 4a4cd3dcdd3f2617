//! Direction-indicator endpoints for simulated bodies.
//!
//! For every entity with a nonzero velocity (or acceleration), the host
//! draws an arrow from the body's center to the center displaced by that
//! vector.  The endpoints are computed here, exactly; the drawing itself is
//! host-side rendering.

use vstd::prelude::*;

use crate::components::SimulationBundle;
use crate::rational::frac_is_zero;
use crate::vector::{Frac3, Vec3, f3_add, f3_add_fits, f3_is_zero};

verus! {

/// How many of the first `i` entities have a nonzero velocity.
pub open spec fn velocity_arrow_count(s: Seq<SimulationBundle>, i: int) -> int
    decreases i,
{
    if i <= 0 {
        0
    } else {
        velocity_arrow_count(s, i - 1) + if !f3_is_zero(s[i - 1].vel@) {
            1int
        } else {
            0int
        }
    }
}

/// How many of the first `i` entities have a nonzero acceleration.
pub open spec fn acceleration_arrow_count(s: Seq<SimulationBundle>, i: int) -> int
    decreases i,
{
    if i <= 0 {
        0
    } else {
        acceleration_arrow_count(s, i - 1) + if !f3_is_zero(s[i - 1].acc@) {
            1int
        } else {
            0int
        }
    }
}

/// Arrow endpoints for every entity with a nonzero velocity, in entity
/// order: from the body's center to the center displaced by the velocity.
pub fn velocity(entities: &Vec<SimulationBundle>) -> (r: Option<Vec<(Vec3, Vec3)>>)
    requires
        forall|i: int| 0 <= i < entities@.len() ==> (#[trigger] entities@[i]).wf(),
    ensures
        r matches Some(a) ==> {
            &&& a@.len() == velocity_arrow_count(entities@, entities@.len() as int)
            &&& forall|i: int|
                0 <= i < entities@.len() && !f3_is_zero((#[trigger] entities@[i]).vel@) ==> {
                    let j = velocity_arrow_count(entities@, i);
                    &&& 0 <= j < a@.len()
                    &&& a@[j].0 == entities@[i].spatial.position
                    &&& a@[j].1.wf()
                    &&& a@[j].1@ == f3_add(
                        entities@[i].spatial.position@,
                        entities@[i].vel@,
                    )
                }
        },
        r is Some <==> forall|i: int|
            0 <= i < entities@.len() && !f3_is_zero((#[trigger] entities@[i]).vel@)
                ==> f3_add_fits(entities@[i].spatial.position@, entities@[i].vel@),
{
    let mut arrows: Vec<(Vec3, Vec3)> = Vec::new();
    let n = entities.len();
    let mut i: usize = 0;
    while i < n
        invariant
            0 <= i <= n,
            n == entities@.len(),
            forall|k: int| 0 <= k < entities@.len() ==> (#[trigger] entities@[k]).wf(),
            arrows@.len() == velocity_arrow_count(entities@, i as int),
            forall|k: int|
                0 <= k < i && !f3_is_zero((#[trigger] entities@[k]).vel@) ==> {
                    let j = velocity_arrow_count(entities@, k);
                    &&& 0 <= j < arrows@.len()
                    &&& arrows@[j].0 == entities@[k].spatial.position
                    &&& arrows@[j].1.wf()
                    &&& arrows@[j].1@ == f3_add(
                        entities@[k].spatial.position@,
                        entities@[k].vel@,
                    )
                },
            forall|k: int|
                0 <= k < i && !f3_is_zero((#[trigger] entities@[k]).vel@) ==> f3_add_fits(
                    entities@[k].spatial.position@,
                    entities@[k].vel@,
                ),
        decreases n - i,
    {
        let e = entities[i];
        if !e.vel.0.is_zero() {
            match e.spatial.position.add(&e.vel.0) {
                Some(tip) => {
                    arrows.push((e.spatial.position, tip));
                },
                None => {
                    return None;
                },
            }
        }
        i = i + 1;
    }
    Some(arrows)
}

/// Arrow endpoints for every entity with a nonzero acceleration, in entity
/// order: from the body's center to the center displaced by the
/// acceleration.
pub fn acceleration(entities: &Vec<SimulationBundle>) -> (r: Option<Vec<(Vec3, Vec3)>>)
    requires
        forall|i: int| 0 <= i < entities@.len() ==> (#[trigger] entities@[i]).wf(),
    ensures
        r matches Some(a) ==> {
            &&& a@.len() == acceleration_arrow_count(entities@, entities@.len() as int)
            &&& forall|i: int|
                0 <= i < entities@.len() && !f3_is_zero((#[trigger] entities@[i]).acc@) ==> {
                    let j = acceleration_arrow_count(entities@, i);
                    &&& 0 <= j < a@.len()
                    &&& a@[j].0 == entities@[i].spatial.position
                    &&& a@[j].1.wf()
                    &&& a@[j].1@ == f3_add(
                        entities@[i].spatial.position@,
                        entities@[i].acc@,
                    )
                }
        },
        r is Some <==> forall|i: int|
            0 <= i < entities@.len() && !f3_is_zero((#[trigger] entities@[i]).acc@)
                ==> f3_add_fits(entities@[i].spatial.position@, entities@[i].acc@),
{
    let mut arrows: Vec<(Vec3, Vec3)> = Vec::new();
    let n = entities.len();
    let mut i: usize = 0;
    while i < n
        invariant
            0 <= i <= n,
            n == entities@.len(),
            forall|k: int| 0 <= k < entities@.len() ==> (#[trigger] entities@[k]).wf(),
            arrows@.len() == acceleration_arrow_count(entities@, i as int),
            forall|k: int|
                0 <= k < i && !f3_is_zero((#[trigger] entities@[k]).acc@) ==> {
                    let j = acceleration_arrow_count(entities@, k);
                    &&& 0 <= j < arrows@.len()
                    &&& arrows@[j].0 == entities@[k].spatial.position
                    &&& arrows@[j].1.wf()
                    &&& arrows@[j].1@ == f3_add(
                        entities@[k].spatial.position@,
                        entities@[k].acc@,
                    )
                },
            forall|k: int|
                0 <= k < i && !f3_is_zero((#[trigger] entities@[k]).acc@) ==> f3_add_fits(
                    entities@[k].spatial.position@,
                    entities@[k].acc@,
                ),
        decreases n - i,
    {
        let e = entities[i];
        if !e.acc.0.is_zero() {
            match e.spatial.position.add(&e.acc.0) {
                Some(tip) => {
                    arrows.push((e.spatial.position, tip));
                },
                None => {
                    return None;
                },
            }
        }
        i = i + 1;
    }
    Some(arrows)
}

} // verus!
