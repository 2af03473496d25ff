//! Spatial transformation and simulation kernel for procedurally animated
//! point clouds: a noise-driven 2D flow field, a 3D Lorenz-attractor swarm,
//! and a static point cloud, all viewed through a movable orbit camera.
//!
//! All quantities are fixed-point numbers: an `i64` counts millionths of a
//! unit (see [`fixed::SCALE`]), so the numerics are exact integers and every
//! operation carries a precise contract.

use vstd::prelude::*;

pub mod base3d;
pub mod camera;
pub mod controls;
pub mod fixed;
pub mod lorenz;
pub mod mat4;
mod norms;
pub mod particle;
pub mod perlin_flow;
pub mod projection;
mod rng;
pub mod trig;
pub mod vec2;
pub mod vec3;

verus! {

/// Failures that the kernel reports to its caller; none is fatal to a host,
/// which may reset the offending entity and keep running its frame loop.
#[derive(Clone, Copy, Debug, PartialEq, Eq, Structural)]
pub enum SimError {
    /// A direction could not be derived because the geometry degenerates
    /// (for example aiming a camera at its own position).
    DegenerateGeometry,
    /// A projection or controller parameter lies outside its permitted range.
    InvalidParameter,
    /// An input value lies outside the range the fixed-point kernel handles.
    InvalidInput,
}

} // verus!
