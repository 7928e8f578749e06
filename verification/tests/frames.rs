//! Frame state machine, outcome classification, and overlay signals.

use viewport_core::camera::{Camera, CameraEdit, Vec3r};
use viewport_core::coordinator::{Core, FrameAction, Phase};
use viewport_core::event::{
    classify, AppStatus, FatalReason, FrameOutcome, MouseButton, SurfaceStatus, TransientReason,
    UserEvent, WindowEvent,
};
use viewport_core::frac::Frac;
use viewport_core::ui::ShortcutPresses;

fn frac_is_int(f: Frac, k: i64) -> bool {
    f.num == k * f.den
}

fn test_camera() -> Camera {
    Camera::new(
        Vec3r::new(Frac::zero(), Frac::from_i64(1), Frac::from_i64(2)),
        Vec3r::new(Frac::zero(), Frac::zero(), Frac::zero()),
        Vec3r::new(Frac::zero(), Frac::from_i64(1), Frac::zero()),
        Frac::new(16, 9),
        Frac::from_i64(45),
        Frac::new(1, 10),
        Frac::from_i64(100),
    )
}

fn test_core() -> Core {
    let mut core = Core::new(
        1280,
        720,
        Frac::from_i64(1),
        test_camera(),
        AppStatus::Info(String::from("ready")),
    );
    core.start();
    core
}

#[test]
fn classification_of_backend_reports() {
    assert_eq!(classify(SurfaceStatus::Presented), FrameOutcome::Presented);
    assert_eq!(classify(SurfaceStatus::Lost), FrameOutcome::NeedsReconfigure);
    assert_eq!(classify(SurfaceStatus::Outdated), FrameOutcome::NeedsReconfigure);
    assert_eq!(
        classify(SurfaceStatus::Timeout),
        FrameOutcome::Transient(TransientReason::Timeout)
    );
    assert_eq!(
        classify(SurfaceStatus::OutOfMemory),
        FrameOutcome::Fatal(FatalReason::OutOfMemory)
    );
}

#[test]
fn no_frame_before_start() {
    let mut core = Core::new(
        640,
        480,
        Frac::from_i64(1),
        test_camera(),
        AppStatus::Info(String::from("ready")),
    );
    assert_eq!(core.phase, Phase::Idle);
    assert!(core.begin_frame().is_none());
    core.start();
    assert!(core.begin_frame().is_some());
}

#[test]
fn render_is_not_reentrant() {
    let mut core = test_core();
    let req = core.begin_frame().expect("first redraw request must be granted");
    assert_eq!(req.width, 1280);
    assert_eq!(req.height, 720);
    assert_eq!(core.phase, Phase::Rendering);
    // a second redraw request while a frame is in flight is refused
    assert!(core.begin_frame().is_none());
    assert_eq!(core.phase, Phase::Rendering);
    // after the resolution and the tick end, the next request is granted
    assert_eq!(core.complete_frame(FrameOutcome::Presented), FrameAction::Continue);
    assert_eq!(core.phase, Phase::Presented);
    core.end_tick();
    assert_eq!(core.phase, Phase::AwaitingRedraw);
    assert!(core.begin_frame().is_some());
}

#[test]
fn reconfigure_uses_last_committed_size() {
    let mut core = test_core();
    assert!(core.resize(800, 600, Frac::from_i64(1)));
    core.begin_frame().expect("redraw request must be granted");
    let act = core.complete_frame(FrameOutcome::NeedsReconfigure);
    assert_eq!(act, FrameAction::Reconfigure { width: 800, height: 600 });
    assert_eq!(core.phase, Phase::Reconfiguring);
    core.end_tick();
    assert_eq!(core.phase, Phase::AwaitingRedraw);
}

#[test]
fn transient_outcome_skips_frame_and_continues() {
    let mut core = test_core();
    core.begin_frame().expect("redraw request must be granted");
    let act = core.complete_frame(FrameOutcome::Transient(TransientReason::Timeout));
    assert_eq!(act, FrameAction::Continue);
    assert_eq!(core.phase, Phase::Degraded);
    core.end_tick();
    assert!(core.begin_frame().is_some());
}

#[test]
fn fatal_outcome_terminates_for_good() {
    let mut core = test_core();
    core.begin_frame().expect("redraw request must be granted");
    let act = core.complete_frame(FrameOutcome::Fatal(FatalReason::OutOfMemory));
    assert_eq!(act, FrameAction::Exit);
    assert!(core.terminated());
    // no tick end revives the machine, and no redraw request is granted
    core.end_tick();
    assert!(core.terminated());
    assert!(core.begin_frame().is_none());
    core.start();
    assert!(core.begin_frame().is_none());
    assert!(core.terminated());
}

#[test]
fn close_request_terminates() {
    let mut core = test_core();
    assert!(core.handle_window_event(&WindowEvent::CloseRequested));
    assert!(core.terminated());
    assert!(core.begin_frame().is_none());
}

#[test]
fn end_to_end_cursor_and_pick_scenario() {
    // viewport 1280x720; cursor to the center -> NDC (0, 0)
    let mut core = test_core();
    assert!(core.handle_window_event(&WindowEvent::CursorMoved {
        x: Frac::from_i64(640),
        y: Frac::from_i64(360),
    }));
    let (nx, ny) = core.mouse.pos_ndc();
    assert!(frac_is_int(nx, 0));
    assert!(frac_is_int(ny, 0));

    // cursor to the top-left corner -> NDC (-1, 1)
    assert!(core.handle_window_event(&WindowEvent::CursorMoved {
        x: Frac::zero(),
        y: Frac::zero(),
    }));
    let (nx, ny) = core.mouse.pos_ndc();
    assert!(frac_is_int(nx, -1));
    assert!(frac_is_int(ny, 1));

    // primary press at the center commits the pick point (0, 0)
    assert!(core.handle_window_event(&WindowEvent::CursorMoved {
        x: Frac::from_i64(640),
        y: Frac::from_i64(360),
    }));
    assert!(core.handle_window_event(&WindowEvent::MouseInput {
        button: MouseButton::Left,
        pressed: true,
    }));
    let (px, py) = core.pick_point.expect("press must commit a pick point");
    assert!(frac_is_int(px, 0));
    assert!(frac_is_int(py, 0));
    assert!(core.mouse.pressed());
    assert!(!core.mouse.released());

    // release flips the edge flags and keeps the pick point
    assert!(core.handle_window_event(&WindowEvent::MouseInput {
        button: MouseButton::Left,
        pressed: false,
    }));
    assert!(!core.mouse.pressed());
    assert!(core.mouse.released());
    assert!(core.pick_point.is_some());

    // a secondary button is ignored by design
    assert!(core.handle_window_event(&WindowEvent::MouseInput {
        button: MouseButton::Middle,
        pressed: true,
    }));
    assert!(!core.mouse.pressed());
    assert!(core.mouse.released());
}

#[test]
fn zero_area_resize_keeps_prior_aspect() {
    let mut core = test_core();
    assert!(core.resize(1920, 1080, Frac::from_i64(1)));
    let aspect_before = core.camera.aspect;
    // the rejected resize is dispatched like any window event
    assert!(core.handle_window_event(&WindowEvent::Resized {
        width: 0,
        height: 720,
        scale_factor: Frac::from_i64(1),
    }));
    assert_eq!(core.camera.aspect, aspect_before);
    assert_eq!(core.viewport.width, 1920);
    assert_eq!(core.viewport.height, 1080);
    // the denominator never reached zero, so the value stays a number
    assert!(core.camera.aspect.den > 0);
}

#[test]
fn scale_factor_change_commits_scale_and_aspect() {
    let mut core = test_core();
    assert!(core.handle_window_event(&WindowEvent::ScaleFactorChanged {
        width: 2560,
        height: 1440,
        scale_factor: Frac::new(2, 1),
    }));
    assert_eq!(core.viewport.scale_factor, Frac::new(2, 1));
    assert_eq!(core.camera.aspect.num, 2560);
    assert_eq!(core.camera.aspect.den, 1440);
    let req = core.begin_frame().expect("redraw request must be granted");
    assert_eq!(req.width, 2560);
    assert_eq!(req.height, 1440);
    assert_eq!(req.pixels_per_point, Frac::new(2, 1));
}

#[test]
fn edges_are_cleared_when_tick_consumes_them() {
    let mut core = test_core();
    core.handle_mouse_input(true);
    assert!(core.mouse.pressed());
    core.begin_frame().expect("redraw request must be granted");
    core.complete_frame(FrameOutcome::Presented);
    core.end_tick();
    assert!(!core.mouse.pressed());
    assert!(!core.mouse.released());
}

#[test]
fn unrecognized_events_are_noops() {
    let mut core = test_core();
    let phase_before = core.phase;
    assert!(!core.handle_window_event(&WindowEvent::Unrecognized));
    assert_eq!(core.phase, phase_before);
    assert!(core.pick_point.is_none());
}

#[test]
fn shortcuts_fire_one_signal_each_in_order() {
    let mut core = test_core();
    let out = core.prepare_overlay(
        &ShortcutPresses {
            app_quit: true,
            file_new: false,
            file_open: true,
            file_save: false,
            file_save_as: true,
        },
        &Vec::new(),
    );
    assert_eq!(out.signals, vec![UserEvent::Quit, UserEvent::OpenFile, UserEvent::SaveFileAs]);

    let out = core.prepare_overlay(&ShortcutPresses::default(), &Vec::new());
    assert!(out.signals.is_empty());

    let out = core.prepare_overlay(
        &ShortcutPresses {
            app_quit: true,
            file_new: true,
            file_open: true,
            file_save: true,
            file_save_as: true,
        },
        &Vec::new(),
    );
    assert_eq!(
        out.signals,
        vec![
            UserEvent::Quit,
            UserEvent::NewFile,
            UserEvent::OpenFile,
            UserEvent::SaveFile,
            UserEvent::SaveFileAs,
        ]
    );
}

#[test]
fn overlay_edits_take_effect_until_next_resize() {
    let mut core = test_core();
    let out = core.prepare_overlay(
        &ShortcutPresses::default(),
        &vec![
            CameraEdit::SetAspect(Frac::new(1, 1)),
            CameraEdit::SetFovy(Frac::from_i64(60)),
        ],
    );
    assert!(out.signals.is_empty());
    // the overlay's aspect override is live...
    assert_eq!(core.camera.aspect, Frac::new(1, 1));
    assert_eq!(core.camera.fovy, Frac::from_i64(60));
    // ...until a resize recomputes it
    assert!(core.resize(1280, 720, Frac::from_i64(1)));
    assert_eq!(core.camera.aspect.num, 1280);
    assert_eq!(core.camera.aspect.den, 720);
    // while the fovy edit survives
    assert_eq!(core.camera.fovy, Frac::from_i64(60));
}
