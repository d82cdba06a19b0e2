//! First-person camera orientation and field of view.
//!
//! Angles are measured in millidegrees (thousandths of a degree) and held in
//! integers, so the clamp and wrap policies below are exact.  The camera's
//! position and the unit facing vector derived from yaw and pitch are
//! floating-point values computed outside the library from the angles kept
//! here.

use vstd::prelude::*;
use vstd::arithmetic::div_mod::{
    lemma_fundamental_div_mod, lemma_mod_add_multiples_vanish, lemma_mod_multiples_vanish,
};
use crate::{fov_in_bounds, FULL_TURN_MDEG, MAX_FOV_MDEG, MIN_FOV_MDEG, PITCH_LIMIT_MDEG};

verus! {

/// Field of view a fresh camera starts with, in millidegrees.
pub const DEFAULT_CAMERA_FOV_MDEG: i64 = 100 * crate::MILLIDEG_PER_DEG;

/// Largest magnitude accepted for the mouse sensitivity, in millidegrees per
/// mouse count.  The bound keeps one mouse delta's angular step well inside
/// the integer range.
pub const MAX_SENSITIVITY_MDEG: i64 = 1000 * crate::MILLIDEG_PER_DEG;

/// Yaw normalized into `[0, FULL_TURN_MDEG)`.
pub open spec fn wrap_angle(a: int) -> int {
    a % (FULL_TURN_MDEG as int)
}

/// Pitch clamped into `[-PITCH_LIMIT_MDEG, PITCH_LIMIT_MDEG]`: the camera
/// never looks past straight up or straight down.
pub open spec fn clamp_pitch(p: int) -> int {
    if p > PITCH_LIMIT_MDEG {
        PITCH_LIMIT_MDEG as int
    } else if p < -PITCH_LIMIT_MDEG {
        -PITCH_LIMIT_MDEG as int
    } else {
        p
    }
}

/// First-person camera driven by relative mouse motion.
#[derive(Clone, Copy, PartialEq, Eq, Structural, Debug)]
pub struct Camera {
    /// Millidegrees turned per mouse count.
    pub sensitivity: i64,
    /// Rotation about the vertical axis, in millidegrees, in `[0, FULL_TURN_MDEG)`.
    pub yaw: i64,
    /// Rotation above or below the horizon, in millidegrees, clamped to
    /// `[-PITCH_LIMIT_MDEG, PITCH_LIMIT_MDEG]`.
    pub pitch: i64,
    /// Vertical field of view, in millidegrees, in `[MIN_FOV_MDEG, MAX_FOV_MDEG]`.
    pub v_fov: i64,
}

/// Where an angle update takes a camera: yaw turns by `-dx` counts and wraps,
/// pitch turns by `dy` counts and clamps; nothing else moves.
pub open spec fn spec_update_angle(c: Camera, dx: int, dy: int) -> Camera {
    Camera {
        yaw: wrap_angle(c.yaw - dx * c.sensitivity) as i64,
        pitch: clamp_pitch(c.pitch + dy * c.sensitivity) as i64,
        ..c
    }
}

/// Where a field-of-view update takes a camera: the delta is applied exactly
/// when the new value stays in bounds, and otherwise nothing moves.
pub open spec fn spec_update_fov(c: Camera, df: int) -> Camera {
    if fov_in_bounds(c.v_fov + df) {
        Camera { v_fov: (c.v_fov + df) as i64, ..c }
    } else {
        c
    }
}

/// Repeated angle updates, applied front to back.
pub open spec fn apply_angle_updates(c: Camera, ds: Seq<(int, int)>) -> Camera
    decreases ds.len(),
{
    if ds.len() == 0 {
        c
    } else {
        apply_angle_updates(spec_update_angle(c, ds[0].0, ds[0].1), ds.skip(1))
    }
}

/// Repeated field-of-view updates, applied front to back.
pub open spec fn apply_fov_updates(c: Camera, ds: Seq<int>) -> Camera
    decreases ds.len(),
{
    if ds.len() == 0 {
        c
    } else {
        apply_fov_updates(spec_update_fov(c, ds[0]), ds.skip(1))
    }
}

impl Camera {
    /// The camera's invariant: yaw normalized, pitch clamped, field of view in
    /// bounds, sensitivity bounded.
    pub open spec fn wf(self) -> bool {
        &&& 0 <= self.yaw < FULL_TURN_MDEG
        &&& -PITCH_LIMIT_MDEG <= self.pitch <= PITCH_LIMIT_MDEG
        &&& fov_in_bounds(self.v_fov as int)
        &&& -MAX_SENSITIVITY_MDEG <= self.sensitivity <= MAX_SENSITIVITY_MDEG
    }

    /// A fresh camera looks straight ahead along the initial facing direction.
    pub fn new(sensitivity: i64) -> (c: Camera)
        requires
            -MAX_SENSITIVITY_MDEG <= sensitivity <= MAX_SENSITIVITY_MDEG,
        ensures
            c.wf(),
            c.sensitivity == sensitivity,
            c.yaw == 0,
            c.pitch == 0,
            c.v_fov == DEFAULT_CAMERA_FOV_MDEG,
    {
        Camera { sensitivity, yaw: 0, pitch: 0, v_fov: DEFAULT_CAMERA_FOV_MDEG }
    }

    /// Turn by a relative mouse motion of `dx` counts sideways and `dy`
    /// counts vertically.
    pub fn update_angle(&mut self, dx: i32, dy: i32)
        requires
            old(self).wf(),
        ensures
            final(self).wf(),
            *final(self) == spec_update_angle(*old(self), dx as int, dy as int),
    {
        proof {
            lemma_step_bound(dx as int, self.sensitivity as int);
            lemma_step_bound(dy as int, self.sensitivity as int);
        }
        let yaw_step: i64 = (dx as i64) * self.sensitivity;
        let pitch_step: i64 = (dy as i64) * self.sensitivity;

        // Reduce the yaw step modulo one turn, keeping its congruence class.
        let ghost turn: int = FULL_TURN_MDEG as int;
        let reduced: i64;
        if yaw_step >= 0 {
            reduced = yaw_step % FULL_TURN_MDEG;
            proof {
                lemma_fundamental_div_mod(yaw_step as int, turn);
                lemma_congruent_wrap(
                    self.yaw - yaw_step,
                    self.yaw - reduced,
                    -((yaw_step as int) / turn),
                    turn,
                );
            }
        } else {
            reduced = -((-yaw_step) % FULL_TURN_MDEG);
            proof {
                lemma_fundamental_div_mod(-yaw_step as int, turn);
                lemma_congruent_wrap(
                    self.yaw - yaw_step,
                    self.yaw - reduced,
                    (-yaw_step as int) / turn,
                    turn,
                );
            }
        }
        let shifted: i64 = self.yaw - reduced + FULL_TURN_MDEG;
        proof {
            lemma_mod_add_multiples_vanish(self.yaw - reduced, turn);
        }
        self.yaw = shifted % FULL_TURN_MDEG;

        let raw_pitch: i64 = self.pitch + pitch_step;
        self.pitch = if raw_pitch > PITCH_LIMIT_MDEG {
            PITCH_LIMIT_MDEG
        } else if raw_pitch < -PITCH_LIMIT_MDEG {
            -PITCH_LIMIT_MDEG
        } else {
            raw_pitch
        };
    }

    /// Nudge the vertical field of view by `df` millidegrees.  Returns whether
    /// the change was accepted; a change that would leave the accepted range
    /// is rejected and leaves the camera untouched.
    pub fn update_fov(&mut self, df: i64) -> (accepted: bool)
        requires
            old(self).wf(),
        ensures
            final(self).wf(),
            accepted <==> fov_in_bounds(old(self).v_fov + df),
            *final(self) == spec_update_fov(*old(self), df as int),
    {
        if df > MAX_FOV_MDEG - self.v_fov || df < MIN_FOV_MDEG - self.v_fov {
            false
        } else {
            self.v_fov = self.v_fov + df;
            true
        }
    }
}

/// One angular step is far smaller than the integer range: a mouse delta
/// times a bounded sensitivity stays under `2^51`.
proof fn lemma_step_bound(d: int, s: int)
    requires
        i32::MIN <= d <= i32::MAX,
        -MAX_SENSITIVITY_MDEG <= s <= MAX_SENSITIVITY_MDEG,
    ensures
        -0x8000000000000i64 <= d * s <= 0x8000000000000i64,
{
    assert(-0x8000000000000i64 <= d * s <= 0x8000000000000i64) by (nonlinear_arith)
        requires
            -0x80000000 <= d <= 0x80000000,
            -1000000 <= s <= 1000000,
    ;
}

/// Two integers a whole number of turns apart wrap to the same angle.
proof fn lemma_congruent_wrap(a: int, b: int, k: int, m: int)
    requires
        m > 0,
        a == b + k * m,
    ensures
        a % m == b % m,
{
    lemma_mod_multiples_vanish(k, b, m);
    assert(m * k + b == b + k * m) by (nonlinear_arith);
}

/// Law: however the mouse moves, the pitch never leaves its limits and the
/// camera stays well formed.
pub proof fn lemma_angle_updates_keep_pitch_clamped(c: Camera, ds: Seq<(int, int)>)
    requires
        c.wf(),
    ensures
        apply_angle_updates(c, ds).wf(),
        -PITCH_LIMIT_MDEG <= apply_angle_updates(c, ds).pitch <= PITCH_LIMIT_MDEG,
    decreases ds.len(),
{
    if ds.len() > 0 {
        lemma_spec_update_angle_wf(c, ds[0].0, ds[0].1);
        lemma_angle_updates_keep_pitch_clamped(spec_update_angle(c, ds[0].0, ds[0].1), ds.skip(1));
    }
}

/// Law: however the wheel turns, the field of view never leaves
/// `[MIN_FOV_MDEG, MAX_FOV_MDEG]` and the camera stays well formed.
pub proof fn lemma_fov_updates_stay_in_bounds(c: Camera, ds: Seq<int>)
    requires
        c.wf(),
    ensures
        apply_fov_updates(c, ds).wf(),
        fov_in_bounds(apply_fov_updates(c, ds).v_fov as int),
    decreases ds.len(),
{
    if ds.len() > 0 {
        lemma_fov_updates_stay_in_bounds(spec_update_fov(c, ds[0]), ds.skip(1));
    }
}

/// One angle update preserves the camera invariant.
proof fn lemma_spec_update_angle_wf(c: Camera, dx: int, dy: int)
    requires
        c.wf(),
    ensures
        spec_update_angle(c, dx, dy).wf(),
{
    lemma_fundamental_div_mod(c.yaw - dx * c.sensitivity, FULL_TURN_MDEG as int);
}

} // verus!
