//! Routing of input to state: the application's mode, its camera, and the
//! per-event and per-frame decisions the frame loop acts on.
//!
//! `update` is the discrete router: one input event in, one [`Message`] out,
//! with the camera, the capture mode and the engine mutated as the event
//! demands.  `fixed_update` is the continuous part, sampled once per frame
//! from the held movement keys; it hands back the positional delta for the
//! caller to apply to the floating-point camera position.

use vstd::prelude::*;
use crate::camera::{spec_update_angle, spec_update_fov, Camera, DEFAULT_CAMERA_FOV_MDEG};
use crate::fov_in_bounds;
use crate::raytrace::{spec_restart, RayTracer};
use crate::system::{InputEvent, Key, Message};

verus! {

/// Millidegrees turned per mouse count: the fixed sensitivity the application
/// starts with.
pub const DEFAULT_SENSITIVITY_MDEG: i64 = 20;

/// Millidegrees of field of view per mouse-wheel count; wheel up narrows.
pub const WHEEL_FOV_STEP_MDEG: i64 = -2000;

/// Hundredths of a world unit moved along the view, or vertically, per frame
/// a movement key is held.
pub const MOVE_STEP_CENTI: i32 = 5;

/// Hundredths of a world unit strafed per frame a strafe key is held.
pub const STRAFE_STEP_CENTI: i32 = 2;

/// Movement keys held down at one frame boundary.
#[derive(Clone, Copy, PartialEq, Eq, Structural, Debug)]
pub struct MovementKeys {
    pub forward: bool,
    pub left: bool,
    pub backward: bool,
    pub right: bool,
    pub up: bool,
    pub down: bool,
}

/// One frame's positional delta, in hundredths of a world unit, in camera
/// coordinates: `x` strafes, `y` moves vertically, `z` moves along the view.
/// The caller scales it and applies it to the floating-point position.
#[derive(Clone, Copy, PartialEq, Eq, Structural, Debug)]
pub struct Translation {
    pub x: i32,
    pub y: i32,
    pub z: i32,
}

/// What one frame's continuous input came to: the positional delta, and
/// whether the camera changed since the last frame (by this delta or by any
/// event routed earlier in the frame).
#[derive(Clone, Copy, PartialEq, Eq, Structural, Debug)]
pub struct FrameMotion {
    pub translation: Translation,
    pub camera_changed: bool,
}

/// The delta the held keys add up to.  Opposite keys cancel exactly.
pub open spec fn spec_translation(k: MovementKeys) -> Translation {
    Translation {
        x: ((if k.right { STRAFE_STEP_CENTI as int } else { 0 })
            - (if k.left { STRAFE_STEP_CENTI as int } else { 0 })) as i32,
        y: ((if k.up { MOVE_STEP_CENTI as int } else { 0 })
            - (if k.down { MOVE_STEP_CENTI as int } else { 0 })) as i32,
        z: ((if k.backward { MOVE_STEP_CENTI as int } else { 0 })
            - (if k.forward { MOVE_STEP_CENTI as int } else { 0 })) as i32,
    }
}

/// The message one event routes to, as a function of the capture mode alone.
pub open spec fn route_message(mode: bool, e: InputEvent) -> Message {
    match e {
        InputEvent::KeyDown(Key::Escape) => if mode {
            Message::ConsumeEvent
        } else {
            Message::Quit
        },
        InputEvent::FocusLost => Message::ConsumeEvent,
        InputEvent::FocusGained => Message::ConsumeEvent,
        InputEvent::MouseButtonLeftDown => Message::ConsumeEvent,
        InputEvent::MouseMotion { .. } => if mode {
            Message::RestartRender
        } else {
            Message::Nothing
        },
        InputEvent::MouseWheel { .. } => Message::RestartRender,
        InputEvent::KeyDown(Key::R) => Message::ConsumeEvent,
        _ => Message::Nothing,
    }
}

/// The capture mode after one event: escape releases, focus follows the
/// window, a click while released recaptures.
pub open spec fn mode_after(mode: bool, e: InputEvent) -> bool {
    match e {
        InputEvent::KeyDown(Key::Escape) => false,
        InputEvent::FocusLost => false,
        InputEvent::FocusGained => true,
        InputEvent::MouseButtonLeftDown => true,
        _ => mode,
    }
}

/// The camera after one event: captured mouse motion turns it, the wheel
/// nudges its field of view, nothing else touches it.
pub open spec fn camera_after(c: Camera, mode: bool, e: InputEvent) -> Camera {
    match e {
        InputEvent::MouseMotion { xrel, yrel } => if mode {
            spec_update_angle(c, xrel as int, yrel as int)
        } else {
            c
        },
        InputEvent::MouseWheel { y } => spec_update_fov(c, WHEEL_FOV_STEP_MDEG * y),
        _ => c,
    }
}

/// Whether the camera counts as changed after one event: motion while
/// captured always changes it, a wheel turn only when the new field of view
/// was accepted.
pub open spec fn changed_after(changed: bool, c: Camera, mode: bool, e: InputEvent) -> bool {
    match e {
        InputEvent::MouseMotion { .. } => if mode {
            true
        } else {
            changed
        },
        InputEvent::MouseWheel { y } => changed || fov_in_bounds(
            c.v_fov + WHEEL_FOV_STEP_MDEG * y,
        ),
        _ => changed,
    }
}

/// What the router itself does to the engine: only the restart key touches
/// it; everything else the frame loop applies after routing.
pub open spec fn engine_after_update(r: RayTracer, e: InputEvent) -> RayTracer {
    match e {
        InputEvent::KeyDown(Key::R) => spec_restart(r),
        _ => r,
    }
}

/// Application state: the camera and the relative-mouse-capture mode, plus
/// the note that the camera changed since the last frame boundary.
#[derive(Clone, Copy, PartialEq, Eq, Structural, Debug)]
pub struct ApplicationState {
    pub camera: Camera,
    /// Relative mouse capture: mouse motion arrives as deltas and turns the
    /// camera.  A released mouse moves the ordinary cursor instead.
    pub relative_mouse_mode: bool,
    /// Set when an event or a key moved the camera; cleared at each frame
    /// boundary by `fixed_update`.
    pub camera_changed_this_frame: bool,
}

impl ApplicationState {
    /// The state's invariant is its camera's.
    pub open spec fn wf(self) -> bool {
        self.camera.wf()
    }

    /// A fresh application: default camera, mouse captured.
    pub fn new() -> (s: ApplicationState)
        ensures
            s.wf(),
            s.relative_mouse_mode,
            !s.camera_changed_this_frame,
            s.camera.sensitivity == DEFAULT_SENSITIVITY_MDEG,
            s.camera.yaw == 0,
            s.camera.pitch == 0,
            s.camera.v_fov == DEFAULT_CAMERA_FOV_MDEG,
    {
        ApplicationState {
            camera: Camera::new(DEFAULT_SENSITIVITY_MDEG),
            relative_mouse_mode: true,
            camera_changed_this_frame: false,
        }
    }

    /// Flip the capture mode.  The caller mirrors the new mode to the window
    /// system.
    fn toggle_relative_mouse_mode(&mut self)
        ensures
            *final(self) == (ApplicationState {
                relative_mouse_mode: !old(self).relative_mouse_mode,
                ..*old(self)
            }),
    {
        self.relative_mouse_mode = !self.relative_mouse_mode;
    }

    /// Force the capture mode.  The caller mirrors the new mode to the window
    /// system.
    fn set_relative_mouse_mode(&mut self, on: bool)
        ensures
            *final(self) == (ApplicationState { relative_mouse_mode: on, ..*old(self) }),
    {
        self.relative_mouse_mode = on;
    }

    /// Route one input event: classify it into a [`Message`] and apply what it
    /// means for the camera, the capture mode and the engine.  When the
    /// returned message is `ConsumeEvent` the caller must skip its own
    /// handling of this event; when the capture mode changed the caller must
    /// mirror it to the window system.
    pub fn update(&mut self, raytracer: &mut RayTracer, event: &InputEvent) -> (msg: Message)
        requires
            old(self).wf(),
            old(raytracer).wf(),
        ensures
            final(self).wf(),
            final(raytracer).wf(),
            msg == route_message(old(self).relative_mouse_mode, *event),
            final(self).relative_mouse_mode == mode_after(
                old(self).relative_mouse_mode,
                *event,
            ),
            final(self).camera == camera_after(
                old(self).camera,
                old(self).relative_mouse_mode,
                *event,
            ),
            final(self).camera_changed_this_frame == changed_after(
                old(self).camera_changed_this_frame,
                old(self).camera,
                old(self).relative_mouse_mode,
                *event,
            ),
            *final(raytracer) == engine_after_update(*old(raytracer), *event),
    {
        match *event {
            InputEvent::KeyDown(Key::Escape) => {
                if self.relative_mouse_mode {
                    // Release the mouse instead of quitting.
                    self.toggle_relative_mouse_mode();
                    Message::ConsumeEvent
                } else {
                    Message::Quit
                }
            },
            InputEvent::FocusLost => {
                self.set_relative_mouse_mode(false);
                Message::ConsumeEvent
            },
            InputEvent::FocusGained => {
                self.set_relative_mouse_mode(true);
                Message::ConsumeEvent
            },
            InputEvent::MouseButtonLeftDown => {
                if !self.relative_mouse_mode {
                    self.toggle_relative_mouse_mode();
                }
                Message::ConsumeEvent
            },
            InputEvent::MouseMotion { xrel, yrel } => {
                if self.relative_mouse_mode {
                    self.camera.update_angle(xrel, yrel);
                    self.camera_changed_this_frame = true;
                    Message::RestartRender
                } else {
                    Message::Nothing
                }
            },
            InputEvent::MouseWheel { y } => {
                // A rejected edge clamp still asks for a restart: repainting
                // once more is cheap and keeps the caller simple.
                if self.camera.update_fov(WHEEL_FOV_STEP_MDEG * (y as i64)) {
                    self.camera_changed_this_frame = true;
                }
                Message::RestartRender
            },
            InputEvent::KeyDown(Key::R) => {
                raytracer.restart_render();
                Message::ConsumeEvent
            },
            _ => Message::Nothing,
        }
    }

    /// The continuous part of a frame: turn the held movement keys into one
    /// positional delta, lift the engine's pause when something moved, and
    /// close the frame's camera-changed note.  The caller applies the
    /// returned delta to the floating-point camera position and, when
    /// `camera_changed` says so, refreshes whatever mirrors the camera.
    pub fn fixed_update(&mut self, raytracer: &mut RayTracer, keys: &MovementKeys) -> (motion:
        FrameMotion)
        requires
            old(self).wf(),
            old(raytracer).wf(),
        ensures
            final(self).wf(),
            final(raytracer).wf(),
            motion.translation == spec_translation(*keys),
            motion.camera_changed == (old(self).camera_changed_this_frame
                || spec_translation(*keys) != (Translation { x: 0, y: 0, z: 0 })),
            final(self).camera == old(self).camera,
            final(self).relative_mouse_mode == old(self).relative_mouse_mode,
            !final(self).camera_changed_this_frame,
            spec_translation(*keys) != (Translation { x: 0, y: 0, z: 0 }) ==> *final(raytracer)
                == (RayTracer { pause_rendering: false, ..*old(raytracer) }),
            spec_translation(*keys) == (Translation { x: 0, y: 0, z: 0 }) ==> *final(raytracer)
                == *old(raytracer),
    {
        let mut t = Translation { x: 0, y: 0, z: 0 };
        if keys.forward {
            t.z = t.z - MOVE_STEP_CENTI;
        }
        if keys.left {
            t.x = t.x - STRAFE_STEP_CENTI;
        }
        if keys.backward {
            t.z = t.z + MOVE_STEP_CENTI;
        }
        if keys.right {
            t.x = t.x + STRAFE_STEP_CENTI;
        }
        if keys.up {
            t.y = t.y + MOVE_STEP_CENTI;
        }
        if keys.down {
            t.y = t.y - MOVE_STEP_CENTI;
        }
        let moved = t.x != 0 || t.y != 0 || t.z != 0;
        if moved {
            // Any motion takes the engine out of a user pause.
            raytracer.pause_rendering = false;
        }
        let changed = self.camera_changed_this_frame || moved;
        self.camera_changed_this_frame = false;
        FrameMotion { translation: t, camera_changed: changed }
    }
}

} // verus!
