use raytracer::application::{ApplicationState, MovementKeys, Translation};
use raytracer::raytrace::RayTracer;
use raytracer::system::{handle_event, EventOutcome, InputEvent, Key, Message};

fn fresh() -> (ApplicationState, RayTracer) {
    (ApplicationState::new(), RayTracer::new(1920, 1080, 100))
}

fn no_keys() -> MovementKeys {
    MovementKeys {
        forward: false,
        left: false,
        backward: false,
        right: false,
        up: false,
        down: false,
    }
}

#[test]
fn escape_releases_capture_then_quits() {
    let (mut s, mut r) = fresh();
    assert!(s.relative_mouse_mode);
    let first = handle_event(&mut s, &mut r, &InputEvent::KeyDown(Key::Escape));
    assert_eq!(first, EventOutcome::Proceed);
    assert!(!s.relative_mouse_mode);
    let second = handle_event(&mut s, &mut r, &InputEvent::KeyDown(Key::Escape));
    assert_eq!(second, EventOutcome::Exit);
}

#[test]
fn focus_follows_window() {
    let (mut s, mut r) = fresh();
    assert_eq!(
        handle_event(&mut s, &mut r, &InputEvent::FocusLost),
        EventOutcome::Proceed
    );
    assert!(!s.relative_mouse_mode);
    assert_eq!(
        handle_event(&mut s, &mut r, &InputEvent::FocusGained),
        EventOutcome::Proceed
    );
    assert!(s.relative_mouse_mode);
}

#[test]
fn left_click_recaptures_released_mouse() {
    let (mut s, mut r) = fresh();
    handle_event(&mut s, &mut r, &InputEvent::FocusLost);
    assert!(!s.relative_mouse_mode);
    handle_event(&mut s, &mut r, &InputEvent::MouseButtonLeftDown);
    assert!(s.relative_mouse_mode);
    // A click while captured changes nothing.
    handle_event(&mut s, &mut r, &InputEvent::MouseButtonLeftDown);
    assert!(s.relative_mouse_mode);
}

#[test]
fn captured_motion_turns_camera_and_restarts() {
    let (mut s, mut r) = fresh();
    r.dispatch_frame();
    r.dispatch_frame();
    assert_eq!(r.sample_count(), 3);
    let outcome = handle_event(&mut s, &mut r, &InputEvent::MouseMotion { xrel: 10, yrel: 5 });
    assert_eq!(outcome, EventOutcome::Proceed);
    // Sensitivity is 20 millidegrees per count.
    assert_eq!(s.camera.yaw, 360000 - 200);
    assert_eq!(s.camera.pitch, 100);
    assert!(s.camera_changed_this_frame);
    assert_eq!(r.sample_count(), 1);
    assert!(!r.pause_rendering);
}

#[test]
fn released_motion_is_ignored() {
    let (mut s, mut r) = fresh();
    handle_event(&mut s, &mut r, &InputEvent::FocusLost);
    r.dispatch_frame();
    let msg = s.update(&mut r, &InputEvent::MouseMotion { xrel: 10, yrel: 5 });
    assert_eq!(msg, Message::Nothing);
    assert_eq!(s.camera.yaw, 0);
    assert_eq!(s.camera.pitch, 0);
    assert_eq!(r.sample_count(), 2);
}

#[test]
fn wheel_restarts_even_when_fov_change_rejected() {
    let (mut s, mut r) = fresh();
    // Push the camera's field of view to the ceiling first.
    s.camera.update_fov(60000);
    assert_eq!(s.camera.v_fov, 160000);
    r.dispatch_frame();
    assert_eq!(r.sample_count(), 2);
    // Wheel down widens by 2 degrees per count: refused at the ceiling...
    let msg = s.update(&mut r, &InputEvent::MouseWheel { y: -1 });
    assert_eq!(msg, Message::RestartRender);
    assert_eq!(s.camera.v_fov, 160000);
    assert!(!s.camera_changed_this_frame);
    // ...yet the frame loop still restarts accumulation on that message.
    let outcome = handle_event(&mut s, &mut r, &InputEvent::MouseWheel { y: -1 });
    assert_eq!(outcome, EventOutcome::Proceed);
    assert_eq!(r.sample_count(), 1);
}

#[test]
fn wheel_up_narrows_fov_and_marks_camera_changed() {
    let (mut s, mut r) = fresh();
    let msg = s.update(&mut r, &InputEvent::MouseWheel { y: 1 });
    assert_eq!(msg, Message::RestartRender);
    assert_eq!(s.camera.v_fov, 98000);
    assert!(s.camera_changed_this_frame);
}

#[test]
fn restart_key_lifts_pause_and_resets() {
    let (mut s, mut r) = fresh();
    r.dispatch_frame();
    handle_event(&mut s, &mut r, &InputEvent::KeyDown(Key::Space));
    assert!(r.pause_rendering);
    let outcome = handle_event(&mut s, &mut r, &InputEvent::KeyDown(Key::R));
    assert_eq!(outcome, EventOutcome::Proceed);
    assert!(!r.pause_rendering);
    assert_eq!(r.sample_count(), 1);
}

#[test]
fn space_toggles_pause_only_before_target() {
    let (mut s, mut r) = fresh();
    handle_event(&mut s, &mut r, &InputEvent::KeyDown(Key::Space));
    assert!(r.pause_rendering);
    assert!(r.dispatch_frame().is_none());
    handle_event(&mut s, &mut r, &InputEvent::KeyDown(Key::Space));
    assert!(!r.pause_rendering);
    assert!(r.dispatch_frame().is_some());
    // Once the target is reached, space no longer resumes.
    let mut done = RayTracer::new(64, 64, 2);
    done.dispatch_frame();
    done.dispatch_frame();
    handle_event(&mut s, &mut done, &InputEvent::KeyDown(Key::Space));
    assert!(done.pause_rendering);
    assert_eq!(done.sample_count(), 2);
}

#[test]
fn resize_event_adopts_size_and_asks_for_reallocation() {
    let (mut s, mut r) = fresh();
    for _ in 0..41 {
        r.dispatch_frame();
    }
    let outcome = handle_event(&mut s, &mut r, &InputEvent::Resized { width: 800, height: 600 });
    assert_eq!(outcome, EventOutcome::Reallocate);
    assert_eq!(r.uniforms.width, 800);
    assert_eq!(r.uniforms.height, 600);
    assert_eq!(r.sample_count(), 1);
    assert!(!r.pause_rendering);
}

#[test]
fn fullscreen_key_unpauses_and_defers_to_caller() {
    let (mut s, mut r) = fresh();
    handle_event(&mut s, &mut r, &InputEvent::KeyDown(Key::Space));
    assert!(r.pause_rendering);
    let outcome = handle_event(&mut s, &mut r, &InputEvent::KeyDown(Key::F11));
    assert_eq!(outcome, EventOutcome::ToggleFullscreen);
    assert!(!r.pause_rendering);
}

#[test]
fn close_event_exits() {
    let (mut s, mut r) = fresh();
    assert_eq!(handle_event(&mut s, &mut r, &InputEvent::Quit), EventOutcome::Exit);
}

#[test]
fn unhandled_events_do_nothing() {
    let (mut s, mut r) = fresh();
    let before_state = s;
    let before_engine = r;
    assert_eq!(
        handle_event(&mut s, &mut r, &InputEvent::Unhandled),
        EventOutcome::Proceed
    );
    assert_eq!(
        handle_event(&mut s, &mut r, &InputEvent::KeyDown(Key::Other)),
        EventOutcome::Proceed
    );
    assert_eq!(s, before_state);
    assert_eq!(r, before_engine);
}

#[test]
fn held_keys_become_one_translation() {
    let (mut s, mut r) = fresh();
    let keys = MovementKeys { forward: true, right: true, ..no_keys() };
    let motion = s.fixed_update(&mut r, &keys);
    assert_eq!(motion.translation, Translation { x: 2, y: 0, z: -5 });
    assert!(motion.camera_changed);
}

#[test]
fn opposite_keys_cancel_exactly() {
    let (mut s, mut r) = fresh();
    handle_event(&mut s, &mut r, &InputEvent::KeyDown(Key::Space));
    assert!(r.pause_rendering);
    let keys = MovementKeys { forward: true, backward: true, ..no_keys() };
    let motion = s.fixed_update(&mut r, &keys);
    assert_eq!(motion.translation, Translation { x: 0, y: 0, z: 0 });
    assert!(!motion.camera_changed);
    // A cancelled-out translation is no motion: the pause stands.
    assert!(r.pause_rendering);
}

#[test]
fn motion_lifts_user_pause() {
    let (mut s, mut r) = fresh();
    handle_event(&mut s, &mut r, &InputEvent::KeyDown(Key::Space));
    assert!(r.pause_rendering);
    let keys = MovementKeys { up: true, ..no_keys() };
    let motion = s.fixed_update(&mut r, &keys);
    assert_eq!(motion.translation, Translation { x: 0, y: 5, z: 0 });
    assert!(!r.pause_rendering);
}

#[test]
fn fixed_update_closes_the_camera_changed_note() {
    let (mut s, mut r) = fresh();
    handle_event(&mut s, &mut r, &InputEvent::MouseMotion { xrel: 1, yrel: 0 });
    assert!(s.camera_changed_this_frame);
    let first = s.fixed_update(&mut r, &no_keys());
    assert!(first.camera_changed);
    assert!(!s.camera_changed_this_frame);
    let second = s.fixed_update(&mut r, &no_keys());
    assert!(!second.camera_changed);
}
