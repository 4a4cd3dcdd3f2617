//! Markers shared with the host's camera pass.
//!
//! The orbit camera itself is host-side float work; the simulation core
//! only defines the marker types through which the host and the simulation
//! agree on which entity the view follows.

use vstd::prelude::*;

verus! {

/// Marks the primary camera.
#[derive(Clone, Copy, Debug)]
pub struct PrimaryCameraMarker;

/// Marks the entity that the primary camera should orbit around.
#[derive(Clone, Copy, Debug)]
pub struct CameraTarget;

/// Handle under which a host registers its camera pass.
#[derive(Clone, Copy, Debug)]
pub struct CameraPlugin;

} // verus!
