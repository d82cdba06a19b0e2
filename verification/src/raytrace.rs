//! The accumulation engine: per-frame sample accumulation state.
//!
//! The engine owns the uniform state the accumulation shader reads
//! (dimensions, sample index, quality parameters) together with the pause flag
//! and the target sample count.  Dispatching GPU work, reallocating the
//! accumulation target and presenting frames happen outside the library;
//! `dispatch_frame` hands the caller the exact uniform values one accumulation
//! pass must be issued with, or nothing when no pass is due.

use vstd::prelude::*;
use crate::{fov_in_bounds, MAX_FOV_MDEG, MIN_FOV_MDEG};

verus! {

/// Rays cast per pixel in one accumulation pass.
pub const DEFAULT_SAMPLES_PER_PIXEL: u32 = 2;

/// Bounce budget of one ray.
pub const DEFAULT_MAX_RAY_BOUNCES: u32 = 12;

/// Vertical field of view a fresh engine renders with, in millidegrees.
pub const DEFAULT_RENDER_FOV_MDEG: i64 = 80 * crate::MILLIDEG_PER_DEG;

/// The uniform state one accumulation pass is issued with.  The shader treats
/// `sample_number == 1` as "overwrite the accumulation target" and any larger
/// value as "blend with its previous contents"; the target is never cleared
/// explicitly, so resetting `sample_number` to 1 is what invalidates it.
#[derive(Clone, Copy, PartialEq, Eq, Structural, Debug)]
pub struct RenderUniforms {
    /// Render target width in pixels.
    pub width: u32,
    /// Render target height in pixels.
    pub height: u32,
    /// 1-based index of the accumulation pass being issued.
    pub sample_number: u32,
    /// Rays cast per pixel in one pass.
    pub samples_per_pixel: u32,
    /// Bounce budget of one ray.
    pub max_ray_bounces: u32,
    /// Vertical field of view in millidegrees.
    pub v_fov: i64,
}

/// The rendering state machine's three states.
#[derive(Clone, Copy, PartialEq, Eq, Structural, Debug)]
pub enum Phase {
    /// Accumulating: each frame dispatches one pass.
    Active,
    /// Halted by the user; the sample index is frozen.
    Paused,
    /// The target sample count was reached; halted until a reset event.
    TargetReached,
}

/// Progressive ray tracer state: accumulates one sample per dispatched frame
/// until the target count is reached, pausing and resetting on demand.
#[derive(Clone, Copy, PartialEq, Eq, Structural, Debug)]
pub struct RayTracer {
    /// State the next accumulation pass will read.
    pub uniforms: RenderUniforms,
    /// User-requested halt.  Also set when the target count is reached.
    pub pause_rendering: bool,
    /// Number of accumulated samples after which rendering halts on its own.
    pub target_samples: u32,
}

/// The sample index set back to 1: the accumulated image is invalidated.
pub open spec fn spec_reset(r: RayTracer) -> RayTracer {
    RayTracer { uniforms: RenderUniforms { sample_number: 1, ..r.uniforms }, ..r }
}

/// A full restart: accumulation reset and rendering resumed.
pub open spec fn spec_restart(r: RayTracer) -> RayTracer {
    RayTracer {
        uniforms: RenderUniforms { sample_number: 1, ..r.uniforms },
        pause_rendering: false,
        ..r
    }
}

/// New dimensions adopted; a changed target size invalidates every
/// accumulated sample, so the index goes back to 1.
pub open spec fn spec_resize(r: RayTracer, width: u32, height: u32) -> RayTracer {
    RayTracer {
        uniforms: RenderUniforms { width, height, sample_number: 1, ..r.uniforms },
        ..r
    }
}

/// The field-of-view boundary policy shared with the camera, plus the reset
/// an accepted change forces.
pub open spec fn spec_change_fov(r: RayTracer, df: int) -> RayTracer {
    if fov_in_bounds(r.uniforms.v_fov + df) {
        RayTracer {
            uniforms: RenderUniforms {
                v_fov: (r.uniforms.v_fov + df) as i64,
                sample_number: 1,
                ..r.uniforms
            },
            ..r
        }
    } else {
        r
    }
}

/// The pause lifted, everything else in place.
pub open spec fn spec_resume(r: RayTracer) -> RayTracer {
    RayTracer { pause_rendering: false, ..r }
}

/// The user pause toggled, unless the target was reached: that state only a
/// reset event leaves.
pub open spec fn spec_toggle_pause(r: RayTracer) -> RayTracer {
    if r.uniforms.sample_number == r.target_samples {
        r
    } else {
        RayTracer { pause_rendering: !r.pause_rendering, ..r }
    }
}

/// One frame's worth of progress: an active engine accumulates one sample; an
/// engine at its target halts itself; a paused engine does nothing.
pub open spec fn spec_dispatch(r: RayTracer) -> RayTracer {
    match r.phase() {
        Phase::Active => RayTracer {
            uniforms: RenderUniforms {
                sample_number: (r.uniforms.sample_number + 1) as u32,
                ..r.uniforms
            },
            ..r
        },
        Phase::TargetReached => RayTracer { pause_rendering: true, ..r },
        Phase::Paused => r,
    }
}

/// `n` frames dispatched in a row, with no event in between.
pub open spec fn apply_dispatches(r: RayTracer, n: nat) -> RayTracer
    decreases n,
{
    if n == 0 {
        r
    } else {
        apply_dispatches(spec_dispatch(r), (n - 1) as nat)
    }
}

impl RayTracer {
    /// The engine's invariant: the sample index is 1-based and never passes
    /// the target, and the field of view honours the shared bounds.
    pub open spec fn wf(self) -> bool {
        &&& 1 <= self.uniforms.sample_number <= self.target_samples
        &&& fov_in_bounds(self.uniforms.v_fov as int)
    }

    /// Which state of the state machine the engine is in.  Reaching the
    /// target halts rendering regardless of the pause flag.
    pub open spec fn phase(self) -> Phase {
        if self.uniforms.sample_number == self.target_samples {
            Phase::TargetReached
        } else if self.pause_rendering {
            Phase::Paused
        } else {
            Phase::Active
        }
    }

    /// A fresh engine: first sample pending, default quality, not paused.
    pub fn new(width: u32, height: u32, target_samples: u32) -> (r: RayTracer)
        requires
            target_samples >= 1,
        ensures
            r.wf(),
            r.uniforms.width == width,
            r.uniforms.height == height,
            r.uniforms.sample_number == 1,
            r.uniforms.samples_per_pixel == DEFAULT_SAMPLES_PER_PIXEL,
            r.uniforms.max_ray_bounces == DEFAULT_MAX_RAY_BOUNCES,
            r.uniforms.v_fov == DEFAULT_RENDER_FOV_MDEG,
            !r.pause_rendering,
            r.target_samples == target_samples,
    {
        RayTracer {
            uniforms: RenderUniforms {
                width,
                height,
                sample_number: 1,
                samples_per_pixel: DEFAULT_SAMPLES_PER_PIXEL,
                max_ray_bounces: DEFAULT_MAX_RAY_BOUNCES,
                v_fov: DEFAULT_RENDER_FOV_MDEG,
            },
            pause_rendering: false,
            target_samples,
        }
    }

    /// Which state of the state machine the engine is in, as a runtime value.
    pub fn current_phase(&self) -> (p: Phase)
        ensures
            p == self.phase(),
    {
        if self.uniforms.sample_number == self.target_samples {
            Phase::TargetReached
        } else if self.pause_rendering {
            Phase::Paused
        } else {
            Phase::Active
        }
    }

    /// How many samples the current accumulation pass stands at.
    pub fn sample_count(&self) -> (n: u32)
        ensures
            n == self.uniforms.sample_number,
    {
        self.uniforms.sample_number
    }

    /// Invalidate the accumulated image: the next pass overwrites it.
    pub fn reset_samples(&mut self)
        requires
            old(self).wf(),
        ensures
            final(self).wf(),
            *final(self) == spec_reset(*old(self)),
            final(self).uniforms.sample_number == 1,
    {
        self.uniforms.sample_number = 1;
    }

    /// Restart rendering: accumulation reset and the pause lifted.
    pub fn restart_render(&mut self)
        requires
            old(self).wf(),
        ensures
            final(self).wf(),
            *final(self) == spec_restart(*old(self)),
            final(self).uniforms.sample_number == 1,
            !final(self).pause_rendering,
    {
        self.pause_rendering = false;
        self.uniforms.sample_number = 1;
    }

    /// The vertical field of view rendered with, in millidegrees.
    pub fn fov(&self) -> (f: i64)
        ensures
            f == self.uniforms.v_fov,
    {
        self.uniforms.v_fov
    }

    /// Nudge the rendered field of view by `df` millidegrees, under the same
    /// boundary policy as the camera.  An accepted change invalidates the
    /// accumulated image; a rejected one leaves the engine untouched.
    pub fn change_fov(&mut self, df: i64) -> (accepted: bool)
        requires
            old(self).wf(),
        ensures
            final(self).wf(),
            accepted <==> fov_in_bounds(old(self).uniforms.v_fov + df),
            *final(self) == spec_change_fov(*old(self), df as int),
            accepted ==> final(self).uniforms.v_fov == old(self).uniforms.v_fov + df
                && final(self).uniforms.sample_number == 1,
            !accepted ==> *final(self) == *old(self),
    {
        if df > MAX_FOV_MDEG - self.uniforms.v_fov || df < MIN_FOV_MDEG - self.uniforms.v_fov {
            false
        } else {
            self.uniforms.sample_number = 1;
            self.uniforms.v_fov = self.uniforms.v_fov + df;
            true
        }
    }

    /// Adopt a new render target size.  All accumulated samples are invalid
    /// at the new size, so the sample index goes back to 1; the caller
    /// reallocates the accumulation target to match.
    pub fn resize(&mut self, width: u32, height: u32)
        requires
            old(self).wf(),
        ensures
            final(self).wf(),
            *final(self) == spec_resize(*old(self), width, height),
            final(self).uniforms.sample_number == 1,
            final(self).uniforms.width == width,
            final(self).uniforms.height == height,
    {
        self.uniforms.sample_number = 1;
        self.uniforms.width = width;
        self.uniforms.height = height;
    }

    /// Account for one frame.  When the engine is active, the returned
    /// uniforms are the ones this frame's accumulation pass must be issued
    /// with (the pre-increment sample index: the pass computes that sample),
    /// and the index moves up by one.  When the target is reached the engine
    /// halts itself; when paused nothing happens; in both cases no pass is
    /// due.
    pub fn dispatch_frame(&mut self) -> (work: Option<RenderUniforms>)
        requires
            old(self).wf(),
        ensures
            final(self).wf(),
            *final(self) == spec_dispatch(*old(self)),
            old(self).phase() is Active ==> work == Some(old(self).uniforms)
                && final(self).uniforms.sample_number == old(self).uniforms.sample_number + 1,
            !(old(self).phase() is Active) ==> work is None
                && final(self).uniforms == old(self).uniforms,
    {
        if !self.pause_rendering {
            if self.uniforms.sample_number == self.target_samples {
                self.pause_rendering = true;
                None
            } else {
                let issued = self.uniforms;
                self.uniforms.sample_number = self.uniforms.sample_number + 1;
                Some(issued)
            }
        } else {
            None
        }
    }

    /// Toggle the user pause.  Once the target is reached the toggle is
    /// refused: only a reset event leaves that state.
    pub fn toggle_pause(&mut self)
        requires
            old(self).wf(),
        ensures
            final(self).wf(),
            *final(self) == spec_toggle_pause(*old(self)),
            old(self).phase() is TargetReached ==> *final(self) == *old(self),
    {
        if self.uniforms.sample_number != self.target_samples {
            self.pause_rendering = !self.pause_rendering;
        }
    }
}

/// Law: dispatching frames from an unpaused engine raises the sample index by
/// exactly one per frame until it stands at the target, and never past it.
pub proof fn lemma_sample_progression(r: RayTracer, n: nat)
    requires
        r.wf(),
        !r.pause_rendering,
    ensures
        apply_dispatches(r, n).wf(),
        apply_dispatches(r, n).target_samples == r.target_samples,
        r.uniforms.sample_number + n <= r.target_samples
            ==> apply_dispatches(r, n).uniforms.sample_number == r.uniforms.sample_number + n,
        r.uniforms.sample_number + n > r.target_samples
            ==> apply_dispatches(r, n).uniforms.sample_number == r.target_samples,
    decreases n,
{
    if n > 0 {
        if r.uniforms.sample_number == r.target_samples {
            lemma_target_reached_is_stable(spec_dispatch(r), (n - 1) as nat);
        } else {
            lemma_sample_progression(spec_dispatch(r), (n - 1) as nat);
        }
    }
}

/// Law: once the sample index stands at the target, no amount of further
/// dispatching moves it; only a reset event can.
pub proof fn lemma_target_reached_is_stable(r: RayTracer, n: nat)
    requires
        r.wf(),
        r.uniforms.sample_number == r.target_samples,
    ensures
        apply_dispatches(r, n).wf(),
        apply_dispatches(r, n).uniforms == r.uniforms,
        apply_dispatches(r, n).target_samples == r.target_samples,
        apply_dispatches(r, n).phase() is TargetReached,
    decreases n,
{
    if n > 0 {
        lemma_target_reached_is_stable(spec_dispatch(r), (n - 1) as nat);
    }
}

} // verus!
