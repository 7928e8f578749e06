//! Coordinate mapping: cursor-to-NDC transform, viewport resize guard,
//! aspect propagation, and exact rational arithmetic.

use viewport_core::camera::{Camera, CameraEdit, Vec3r};
use viewport_core::event::{MouseButton, WindowEvent};
use viewport_core::frac::Frac;
use viewport_core::mouse::Mouse;
use viewport_core::viewport::ViewportState;

fn frac_is_int(f: Frac, k: i64) -> bool {
    f.num == k * f.den
}

fn frac_eq(a: Frac, b: Frac) -> bool {
    (a.num as i128) * (b.den as i128) == (b.num as i128) * (a.den as i128)
}

fn test_camera() -> Camera {
    Camera::new(
        Vec3r::new(Frac::zero(), Frac::from_i64(1), Frac::from_i64(2)),
        Vec3r::new(Frac::zero(), Frac::zero(), Frac::zero()),
        Vec3r::new(Frac::zero(), Frac::from_i64(1), Frac::zero()),
        Frac::new(16, 9),
        Frac::from_i64(45),
        Frac::new(1, 10),
        Frac::from_i64(100),
    )
}

#[test]
fn ndc_center_is_origin() {
    let mut m = Mouse::new(1280, 720);
    m.update_from_viewport(Frac::from_i64(640), Frac::from_i64(360));
    let (nx, ny) = m.pos_ndc();
    assert!(frac_is_int(nx, 0));
    assert!(frac_is_int(ny, 0));
}

#[test]
fn ndc_top_left_is_minus_one_plus_one() {
    let mut m = Mouse::new(1280, 720);
    m.update_from_viewport(Frac::zero(), Frac::zero());
    let (nx, ny) = m.pos_ndc();
    assert!(frac_is_int(nx, -1));
    assert!(frac_is_int(ny, 1));
}

#[test]
fn ndc_bottom_right_is_plus_one_minus_one() {
    let mut m = Mouse::new(1280, 720);
    m.update_from_viewport(Frac::from_i64(1280), Frac::from_i64(720));
    let (nx, ny) = m.pos_ndc();
    assert!(frac_is_int(nx, 1));
    assert!(frac_is_int(ny, -1));
}

#[test]
fn ndc_stays_in_unit_square_on_a_grid() {
    let mut m = Mouse::new(1280, 720);
    for x in [0i64, 1, 320, 640, 1279, 1280] {
        for y in [0i64, 1, 180, 360, 719, 720] {
            m.update_from_viewport(Frac::from_i64(x), Frac::from_i64(y));
            let (nx, ny) = m.pos_ndc();
            // -1 <= n <= 1, by cross multiplication against den > 0
            assert!(-nx.den <= nx.num && nx.num <= nx.den);
            assert!(-ny.den <= ny.num && ny.num <= ny.den);
        }
    }
}

#[test]
fn ndc_handles_fractional_pixels_exactly() {
    // 320.25 px on a 1281-px-wide screen: ndc = (2*320.25 - 1281) / 1281
    let mut m = Mouse::new(1281, 720);
    m.update_from_viewport(Frac::new(1281, 4), Frac::from_i64(360));
    let (nx, _) = m.pos_ndc();
    // (1281/4 / 1281) * 2 - 1 == -1/2
    assert!(frac_eq(nx, Frac::new(-1, 2)));
}

#[test]
fn mouse_process_events_tracks_primary_button_only() {
    let mut m = Mouse::new(800, 600);
    let handled = m.process_events(&WindowEvent::MouseInput {
        button: MouseButton::Left,
        pressed: true,
    });
    assert!(handled);
    assert!(m.pressed());
    assert!(!m.released());

    let handled = m.process_events(&WindowEvent::MouseInput {
        button: MouseButton::Right,
        pressed: true,
    });
    assert!(!handled);
    assert!(m.pressed());

    let handled = m.process_events(&WindowEvent::MouseInput {
        button: MouseButton::Left,
        pressed: false,
    });
    assert!(handled);
    assert!(!m.pressed());
    assert!(m.released());

    assert!(m.process_events(&WindowEvent::CursorMoved {
        x: Frac::from_i64(10),
        y: Frac::from_i64(20),
    }));
    assert!(!m.process_events(&WindowEvent::Unrecognized));
    assert!(!m.process_events(&WindowEvent::CloseRequested));
}

#[test]
fn mouse_renormalizes_on_screen_change() {
    let mut m = Mouse::new(1280, 720);
    m.update_from_viewport(Frac::from_i64(640), Frac::from_i64(360));
    m.set_screen(640, 360);
    let (nx, ny) = m.pos_ndc();
    // the same pixel is now the bottom-right corner
    assert!(frac_is_int(nx, 1));
    assert!(frac_is_int(ny, -1));
    let (px, py) = m.pos_viewport();
    assert_eq!(px.num, 640);
    assert_eq!(py.num, 360);
}

#[test]
fn zero_area_resize_is_rejected_and_idempotent() {
    let mut v = ViewportState::new(1280, 720, Frac::from_i64(1));
    let before = v;
    assert!(!v.resize(0, 720, Frac::from_i64(2)));
    assert_eq!(v, before);
    assert!(!v.resize(1280, 0, Frac::from_i64(2)));
    assert_eq!(v, before);
    assert!(!v.resize(0, 0, Frac::from_i64(2)));
    assert_eq!(v, before);
}

#[test]
fn accepted_resize_commits_size_scale_and_aspect() {
    let mut v = ViewportState::new(1280, 720, Frac::from_i64(1));
    assert!(v.resize(1920, 1080, Frac::new(3, 2)));
    assert_eq!(v.width, 1920);
    assert_eq!(v.height, 1080);
    assert_eq!(v.scale_factor, Frac::new(3, 2));
    let a = v.aspect();
    assert_eq!(a.num, 1920);
    assert_eq!(a.den, 1080);
    // exactly 16/9
    assert!(frac_eq(a, Frac::new(16, 9)));
}

#[test]
fn camera_aspect_follows_resize_exactly() {
    let mut c = test_camera();
    c.set_aspect(1920, 1080);
    assert_eq!(c.aspect.num, 1920);
    assert_eq!(c.aspect.den, 1080);
    assert!(frac_eq(c.aspect, Frac::new(16, 9)));
}

#[test]
fn camera_edit_last_of_same_field_wins() {
    let mut c = test_camera();
    c.apply_edit(&CameraEdit::SetFovy(Frac::from_i64(60)));
    c.apply_edit(&CameraEdit::SetFovy(Frac::from_i64(75)));
    assert_eq!(c.fovy, Frac::from_i64(75));
    // other fields untouched
    assert_eq!(c.znear, Frac::new(1, 10));
}

#[test]
fn camera_degeneracy_guard() {
    let mut c = test_camera();
    assert!(!c.is_degenerate());

    // eye == target (by value, not representation)
    let mut d = c;
    d.apply_edit(&CameraEdit::SetEye(Vec3r::new(
        Frac::new(0, 7),
        Frac::new(0, 3),
        Frac::new(0, 5),
    )));
    assert!(d.is_degenerate());

    // zero up vector
    let mut d = c;
    d.apply_edit(&CameraEdit::SetUp(Vec3r::new(Frac::zero(), Frac::zero(), Frac::zero())));
    assert!(d.is_degenerate());

    // znear >= zfar
    let mut d = c;
    d.apply_edit(&CameraEdit::SetZnear(Frac::from_i64(200)));
    assert!(d.is_degenerate());

    // fovy at the open bound
    let mut d = c;
    d.apply_edit(&CameraEdit::SetFovy(Frac::from_i64(180)));
    assert!(d.is_degenerate());

    // aspect must be positive
    c.apply_edit(&CameraEdit::SetAspect(Frac::new(-16, 9)));
    assert!(c.is_degenerate());
}

#[test]
fn frac_value_comparisons_are_exact() {
    assert!(frac_eq(Frac::new(2, 4), Frac::new(1, 2)));
    let half = Frac::new(1, 2);
    let two_quarters = Frac::new(2, 4);
    assert!(half.eq_val(&two_quarters));
    assert!(half.le_val(&Frac::new(501, 1000)));
    assert!(!half.lt_val(&Frac::new(500, 1000)));
    assert!(Frac::new(1, 3).lt_val(&half));
    assert!(Frac::new(1, 1000000).is_positive());
    assert!(!Frac::zero().is_positive());
}
