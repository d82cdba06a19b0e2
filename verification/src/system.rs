//! The frame loop's decision core: events, messages, and what each event
//! means for the whole system.
//!
//! The loop that owns the window polls events, calls [`handle_event`] for
//! each, and acts on the returned [`EventOutcome`]; everything the event
//! means for the library's state has already happened by then.

use vstd::prelude::*;
use crate::application::{
    camera_after, changed_after, mode_after, route_message, ApplicationState,
};
use crate::raytrace::{
    spec_restart, spec_resize, spec_resume, spec_toggle_pause, Phase, RayTracer,
};

verus! {

/// What the router asks the frame loop to do with one event.
#[derive(Clone, Copy, PartialEq, Eq, Structural, Debug)]
pub enum Message {
    /// The application should exit.
    Quit,
    /// The accumulated image is stale (the camera moved): restart rendering.
    /// The event is consumed.
    RestartRender,
    /// The event was handled in full and must not be handled again.
    ConsumeEvent,
    /// The router has no claim on this event.
    Nothing,
}

/// A key the system reacts to.
#[derive(Clone, Copy, PartialEq, Eq, Structural, Debug)]
pub enum Key {
    /// Release the mouse, or quit once released.
    Escape,
    /// Restart rendering.
    R,
    /// Toggle the user pause.
    Space,
    /// Toggle fullscreen.
    F11,
    /// Any other key.
    Other,
}

/// One discrete input event, as the window system delivers them.
#[derive(Clone, Copy, PartialEq, Eq, Structural, Debug)]
pub enum InputEvent {
    /// The window was asked to close.
    Quit,
    /// A key went down.
    KeyDown(Key),
    /// The mouse moved by a relative delta.
    MouseMotion { xrel: i32, yrel: i32 },
    /// The wheel turned by `y` counts.
    MouseWheel { y: i32 },
    /// The left mouse button went down.
    MouseButtonLeftDown,
    /// The window lost keyboard focus.
    FocusLost,
    /// The window gained keyboard focus.
    FocusGained,
    /// The window was resized.
    Resized { width: u32, height: u32 },
    /// Any event the system has no reaction to.
    Unhandled,
}

/// What the frame loop must still do after the library handled an event.
#[derive(Clone, Copy, PartialEq, Eq, Structural, Debug)]
pub enum EventOutcome {
    /// Nothing: go on to the next event.
    Proceed,
    /// Leave the frame loop and tear the application down.
    Exit,
    /// The render dimensions changed: reallocate the accumulation target and
    /// the swap chain to the engine's dimensions.
    Reallocate,
    /// Toggle the window's fullscreen state, then feed the size that results
    /// back through [`RayTracer::resize`] and reallocate as above.
    ToggleFullscreen,
}

/// The outcome one event comes to, as a function of the capture mode alone.
pub open spec fn outcome_of(mode: bool, e: InputEvent) -> EventOutcome {
    match route_message(mode, e) {
        Message::Quit => EventOutcome::Exit,
        Message::ConsumeEvent => EventOutcome::Proceed,
        Message::RestartRender => EventOutcome::Proceed,
        Message::Nothing => match e {
            InputEvent::Quit => EventOutcome::Exit,
            InputEvent::Resized { .. } => EventOutcome::Reallocate,
            InputEvent::KeyDown(Key::F11) => EventOutcome::ToggleFullscreen,
            _ => EventOutcome::Proceed,
        },
    }
}

/// Everything one event does to the engine, router and frame loop taken
/// together: camera motion, the wheel and the restart key restart rendering;
/// a resize adopts the new size and restarts; space toggles the pause; the
/// fullscreen key lifts it before the window changes.
pub open spec fn engine_after_event(r: RayTracer, mode: bool, e: InputEvent) -> RayTracer {
    match e {
        InputEvent::MouseMotion { .. } => if mode {
            spec_restart(r)
        } else {
            r
        },
        InputEvent::MouseWheel { .. } => spec_restart(r),
        InputEvent::KeyDown(Key::R) => spec_restart(r),
        InputEvent::Resized { width, height } => spec_resize(spec_resume(r), width, height),
        InputEvent::KeyDown(Key::Space) => spec_toggle_pause(r),
        InputEvent::KeyDown(Key::F11) => spec_resume(r),
        _ => r,
    }
}

/// Law: the events that invalidate the accumulated image — captured mouse
/// motion, a wheel turn, the restart key, a resize — always leave the engine
/// accumulating afresh: sample index 1 and no pause, whatever state it stood
/// in.  (With a target of a single sample, the fresh index already stands at
/// the target.)
pub proof fn lemma_reset_events_reactivate(r: RayTracer, mode: bool, e: InputEvent)
    requires
        r.wf(),
        match e {
            InputEvent::MouseMotion { .. } => mode,
            InputEvent::MouseWheel { .. } => true,
            InputEvent::KeyDown(k) => k is R,
            InputEvent::Resized { .. } => true,
            _ => false,
        },
    ensures
        engine_after_event(r, mode, e).uniforms.sample_number == 1,
        !engine_after_event(r, mode, e).pause_rendering,
        r.target_samples > 1 ==> engine_after_event(r, mode, e).phase() == Phase::Active,
{
}

/// Handle one polled event in full: route it through the application, apply
/// what its message means for the engine, and handle the system-level events
/// the router leaves alone (close, resize, pause, fullscreen).  The returned
/// outcome is all the caller still has to act on.
pub fn handle_event(
    state: &mut ApplicationState,
    raytracer: &mut RayTracer,
    event: &InputEvent,
) -> (outcome: EventOutcome)
    requires
        old(state).wf(),
        old(raytracer).wf(),
    ensures
        final(state).wf(),
        final(raytracer).wf(),
        outcome == outcome_of(old(state).relative_mouse_mode, *event),
        final(state).relative_mouse_mode == mode_after(old(state).relative_mouse_mode, *event),
        final(state).camera == camera_after(
            old(state).camera,
            old(state).relative_mouse_mode,
            *event,
        ),
        final(state).camera_changed_this_frame == changed_after(
            old(state).camera_changed_this_frame,
            old(state).camera,
            old(state).relative_mouse_mode,
            *event,
        ),
        *final(raytracer) == engine_after_event(
            *old(raytracer),
            old(state).relative_mouse_mode,
            *event,
        ),
{
    let msg = state.update(raytracer, event);
    match msg {
        Message::Quit => EventOutcome::Exit,
        Message::ConsumeEvent => EventOutcome::Proceed,
        Message::RestartRender => {
            raytracer.restart_render();
            EventOutcome::Proceed
        },
        Message::Nothing => {
            match *event {
                InputEvent::Quit => EventOutcome::Exit,
                InputEvent::Resized { width, height } => {
                    raytracer.pause_rendering = false;
                    raytracer.resize(width, height);
                    EventOutcome::Reallocate
                },
                InputEvent::KeyDown(Key::Space) => {
                    raytracer.toggle_pause();
                    EventOutcome::Proceed
                },
                InputEvent::KeyDown(Key::F11) => {
                    raytracer.pause_rendering = false;
                    EventOutcome::ToggleFullscreen
                },
                _ => EventOutcome::Proceed,
            }
        },
    }
}

} // verus!
