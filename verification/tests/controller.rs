//! Per-tick orbit controller scenarios: orbit, pan, zoom, idle, pole guard.

use orbit_camera::Controller;
use orbit_camera::LookAngles;
use orbit_camera::LookTransform;
use orbit_camera::control::ScrollEvent;
use orbit_camera::control::ScrollUnit;
use orbit_camera::control::TickInput;
use orbit_camera::control::system;
use orbit_camera::vec3::Vec2;
use orbit_camera::vec3::Vec3;

fn v3(x: i64, y: i64, z: i64) -> Vec3 {
    Vec3 { x, y, z }
}

fn state_at_z5() -> LookTransform {
    LookTransform::new(v3(0, 0, 5_000_000), v3(0, 0, 0), v3(0, 1_000_000, 0))
}

fn idle_input() -> TickInput {
    TickInput {
        dt: 16_000,
        cursor_delta: Vec2 { x: 0, y: 0 },
        scroll: Vec::new(),
        rotate_active: false,
        pan_active: false,
    }
}

#[test]
fn zero_input_leaves_state_unchanged() {
    let c = Controller::default();
    let mut t = state_at_z5();
    let before = t;
    system(&c, &mut t, &idle_input());
    assert_eq!(t, before);
}

#[test]
fn orbit_horizontal_drag() {
    let c = Controller::default();
    let mut t = state_at_z5();
    let input = TickInput {
        dt: 16_000,
        cursor_delta: Vec2 { x: 100_000_000, y: 0 },
        scroll: Vec::new(),
        rotate_active: true,
        pan_active: false,
    };
    system(&c, &mut t, &input);
    // yaw delta is -dt * sensitivity * delta.x = -0.128 rad
    assert_eq!(t.eye, v3(-638_255, 0, 4_959_095));
    assert_eq!(t.target, v3(0, 0, 0));
    // the eye stays on a circle of radius 5 around the target
    let r = t.radius();
    assert!((r - 5_000_000).abs() <= 100, "radius {}", r);
    let a = LookAngles::from_vector(v3(t.eye.x, t.eye.y, t.eye.z));
    assert!((a.yaw + 128_000).abs() <= 2_500, "yaw {}", a.yaw);
    assert_eq!(a.pitch, 0);
}

#[test]
fn zoom_in_one_line() {
    let c = Controller::default();
    let mut t = state_at_z5();
    let input = TickInput {
        dt: 16_000,
        cursor_delta: Vec2 { x: 0, y: 0 },
        scroll: vec![ScrollEvent { amount: 1_000_000, unit: ScrollUnit::Line }],
        rotate_active: false,
        pan_active: false,
    };
    system(&c, &mut t, &input);
    // radius 5.0 * (1 - 1.0 * 0.2) = 4.0
    assert_eq!(t.eye, v3(0, 0, 4_000_000));
    assert_eq!(t.radius(), 4_000_000);
}

#[test]
fn zoom_pixel_events_convert_by_pixels_per_line() {
    let c = Controller::default();
    let mut t = state_at_z5();
    // 13.25 pixels at 53 pixels per line is exactly a quarter line
    let input = TickInput {
        dt: 16_000,
        cursor_delta: Vec2 { x: 0, y: 0 },
        scroll: vec![ScrollEvent { amount: 13_250_000, unit: ScrollUnit::Pixel }],
        rotate_active: false,
        pan_active: false,
    };
    system(&c, &mut t, &input);
    // radius 5.0 * (1 - 0.25 * 0.2) = 4.75
    assert_eq!(t.radius(), 4_750_000);
}

#[test]
fn zoom_folds_all_events_multiplicatively() {
    let c = Controller::default();
    let mut t = state_at_z5();
    let input = TickInput {
        dt: 16_000,
        cursor_delta: Vec2 { x: 0, y: 0 },
        scroll: vec![
            ScrollEvent { amount: 1_000_000, unit: ScrollUnit::Line },
            ScrollEvent { amount: 1_000_000, unit: ScrollUnit::Line },
        ],
        rotate_active: false,
        pan_active: false,
    };
    system(&c, &mut t, &input);
    // 5.0 * 0.8 * 0.8 = 3.2
    assert_eq!(t.radius(), 3_200_000);
}

#[test]
fn zoom_clamps_at_minimum_radius() {
    let c = Controller::default();
    let mut t = LookTransform::new(v3(0, 0, 2_000), v3(0, 0, 0), v3(0, 1_000_000, 0));
    // a huge scroll-in makes the factor negative; the radius clamps at the floor
    let input = TickInput {
        dt: 16_000,
        cursor_delta: Vec2 { x: 0, y: 0 },
        scroll: vec![ScrollEvent { amount: 10_000_000, unit: ScrollUnit::Line }],
        rotate_active: false,
        pan_active: false,
    };
    system(&c, &mut t, &input);
    assert_eq!(t.radius(), 1_000);
    assert_eq!(t.eye, v3(0, 0, 1_000));
}

#[test]
fn zoom_clamps_small_positive_radius_to_minimum() {
    let c = Controller::default();
    let mut t = LookTransform::new(v3(0, 0, 1_200), v3(0, 0, 0), v3(0, 1_000_000, 0));
    let input = TickInput {
        dt: 16_000,
        cursor_delta: Vec2 { x: 0, y: 0 },
        scroll: vec![ScrollEvent { amount: 1_000_000, unit: ScrollUnit::Line }],
        rotate_active: false,
        pan_active: false,
    };
    system(&c, &mut t, &input);
    // 0.0012 * 0.8 = 0.00096, below the floor of 0.001
    assert_eq!(t.radius(), 1_000);
}

#[test]
fn zoom_clamps_at_maximum_radius() {
    let c = Controller::default();
    let mut t = LookTransform::new(
        v3(0, 0, 900_000_000_000),
        v3(0, 0, 0),
        v3(0, 1_000_000, 0),
    );
    // a huge scroll-out would push the radius past the ceiling
    let input = TickInput {
        dt: 16_000,
        cursor_delta: Vec2 { x: 0, y: 0 },
        scroll: vec![ScrollEvent { amount: -20_000_000, unit: ScrollUnit::Line }],
        rotate_active: false,
        pan_active: false,
    };
    system(&c, &mut t, &input);
    assert_eq!(t.radius(), 1_000_000_000_000);
    assert_eq!(t.eye, v3(0, 0, 1_000_000_000_000));
}

#[test]
fn radius_stays_in_range_over_many_zooms() {
    let c = Controller::default();
    let mut t = state_at_z5();
    for step in 0..40 {
        let amount = if step % 3 == 0 { -2_000_000 } else { 1_500_000 };
        let input = TickInput {
            dt: 16_000,
            cursor_delta: Vec2 { x: 0, y: 0 },
            scroll: vec![ScrollEvent { amount, unit: ScrollUnit::Line }],
            rotate_active: false,
            pan_active: false,
        };
        system(&c, &mut t, &input);
        let r = t.radius();
        // the clamped radius drives the eye; allow rounding slack on the
        // re-derived distance
        assert!(r >= 990, "radius {}", r);
        assert!(r <= 1_000_000_000_100, "radius {}", r);
    }
}

#[test]
fn pan_moves_target_and_eye_together() {
    let c = Controller::default();
    let mut t = state_at_z5();
    let input = TickInput {
        dt: 1_000_000,
        cursor_delta: Vec2 { x: 10_000_000, y: 0 },
        scroll: Vec::new(),
        rotate_active: false,
        pan_active: true,
    };
    system(&c, &mut t, &input);
    // pan amount = dt * 0.1 * 10 = 1.0 along the camera's right vector;
    // looking from +z toward the origin with +y up, right = up x forward = (-1, 0, 0)
    assert_eq!(t.target, v3(-1_000_000, 0, 0));
    // the eye moves with the target: the pre-pan radius is kept exactly
    assert_eq!(t.eye, v3(-1_000_000, 0, 5_000_000));
    assert_eq!(t.radius(), 5_000_000);
}

#[test]
fn pole_guard_rejects_rotation_near_up() {
    let c = Controller::default();
    let mut t = state_at_z5();
    let up_unit = v3(0, 1_000_000, 0);
    // drive pitch upward 0.1 rad per tick; once the candidate direction gets
    // within the guard band of the pole, further rotation ticks are rejected
    for _ in 0..30 {
        let input = TickInput {
            dt: 1_000_000,
            cursor_delta: Vec2 { x: 0, y: 1_250_000 },
            scroll: Vec::new(),
            rotate_active: true,
            pan_active: false,
        };
        system(&c, &mut t, &input);
        let dir = v3(t.eye.x - t.target.x, t.eye.y - t.target.y, t.eye.z - t.target.z)
            .normalize()
            .unwrap();
        let dot = dir.dot(&up_unit);
        assert!(dot <= 990_000, "dot {}", dot);
        // orientation never flips past the pole
        assert!(t.eye.z - t.target.z > 0, "flipped: {:?}", t.eye);
    }
    let r = t.radius();
    assert!((r - 5_000_000).abs() <= 10_000, "radius {}", r);
}

#[test]
fn guarded_tick_keeps_direction_stable() {
    let c = Controller::default();
    let mut t = state_at_z5();
    // saturate pitch against the guard
    for _ in 0..30 {
        let input = TickInput {
            dt: 1_000_000,
            cursor_delta: Vec2 { x: 0, y: 1_250_000 },
            scroll: Vec::new(),
            rotate_active: true,
            pan_active: false,
        };
        system(&c, &mut t, &input);
    }
    let before = LookAngles::from_vector(v3(t.eye.x, t.eye.y, t.eye.z));
    let input = TickInput {
        dt: 1_000_000,
        cursor_delta: Vec2 { x: 0, y: 1_250_000 },
        scroll: Vec::new(),
        rotate_active: true,
        pan_active: false,
    };
    system(&c, &mut t, &input);
    let after = LookAngles::from_vector(v3(t.eye.x, t.eye.y, t.eye.z));
    assert!((after.pitch - before.pitch).abs() <= 2_000, "{} vs {}", after.pitch, before.pitch);
    assert_eq!(after.yaw, before.yaw);
}

#[test]
fn default_controller_values() {
    let c = Controller::default();
    assert_eq!(c.mouse_rotate_sensitivity, Vec2 { x: 80_000, y: 80_000 });
    assert_eq!(c.mouse_translate_sensitivity, Vec2 { x: 100_000, y: 100_000 });
    assert_eq!(c.mouse_wheel_zoom_sensitivity, 200_000);
    assert_eq!(c.pixels_per_line, 53_000_000);
}
