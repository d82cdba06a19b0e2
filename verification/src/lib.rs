//! Verified core of an interactive, progressively refining ray tracer.
//!
//! The library owns the state that drives rendering: a first-person camera
//! (orientation and field of view, kept in exact integer millidegrees), the
//! accumulation engine with its sample counter and pause/target bookkeeping,
//! and the routing of input events to state transitions.  GPU submission,
//! windowing and floating-point vector math live outside the library and are
//! driven by the decisions made here.

use vstd::prelude::*;

pub mod application;
pub mod camera;
pub mod raytrace;
pub mod system;

verus! {

/// Thousandths of a degree in one degree.
pub const MILLIDEG_PER_DEG: i64 = 1000;

/// A full turn, in millidegrees.  Yaw is kept normalized to `[0, FULL_TURN_MDEG)`.
pub const FULL_TURN_MDEG: i64 = 360 * MILLIDEG_PER_DEG;

/// Largest magnitude the pitch may take, in millidegrees: no looking past
/// straight up or straight down.
pub const PITCH_LIMIT_MDEG: i64 = 89 * MILLIDEG_PER_DEG;

/// Smallest vertical field of view accepted, in millidegrees.
pub const MIN_FOV_MDEG: i64 = 10 * MILLIDEG_PER_DEG;

/// Largest vertical field of view accepted, in millidegrees.
pub const MAX_FOV_MDEG: i64 = 160 * MILLIDEG_PER_DEG;

/// The shared boundary policy for the vertical field of view: a value is
/// acceptable exactly when it lies in `[MIN_FOV_MDEG, MAX_FOV_MDEG]`.
/// Both the camera and the accumulation engine reject changes that would
/// leave this range.
pub open spec fn fov_in_bounds(fov: int) -> bool {
    MIN_FOV_MDEG <= fov <= MAX_FOV_MDEG
}

} // verus!
