//! Automatic-rotation integrator scenarios.

use orbit_camera::LookAngles;
use orbit_camera::LookTransform;
use orbit_camera::automatic::AutomaticRotation;
use orbit_camera::automatic::update;
use orbit_camera::vec3::Vec3;

fn v3(x: i64, y: i64, z: i64) -> Vec3 {
    Vec3 { x, y, z }
}

fn state_at_z5() -> LookTransform {
    LookTransform::new(v3(0, 0, 5_000_000), v3(0, 0, 0), v3(0, 1_000_000, 0))
}

#[test]
fn disabled_is_a_no_op() {
    let cfg = AutomaticRotation::default();
    assert!(!cfg.enabled);
    assert_eq!(cfg.sensitivity, 1_000_000);
    let mut t = state_at_z5();
    let before = t;
    update(&cfg, &mut t, 500_000);
    assert_eq!(t, before);
}

#[test]
fn half_second_at_one_radian_per_second() {
    let cfg = AutomaticRotation { enabled: true, sensitivity: 1_000_000 };
    let mut t = state_at_z5();
    update(&cfg, &mut t, 500_000);
    // forward rotates by 0.5 rad about up; target and up stay put
    assert_eq!(t.target, v3(0, 0, 0));
    assert_eq!(t.up, v3(0, 1_000_000, 0));
    assert_eq!(t.eye, v3(2_397_130, 0, 4_387_915));
    // the eye keeps the original distance from the target
    let r = t.radius();
    assert!((r - 5_000_000).abs() <= 100, "radius {}", r);
    // the yaw of the new direction advanced by about 0.5 rad
    let a = LookAngles::from_vector(v3(t.eye.x, t.eye.y, t.eye.z));
    assert!((a.yaw - 500_000).abs() <= 2_500, "yaw {}", a.yaw);
    assert_eq!(a.pitch, 0);
}

#[test]
fn zero_elapsed_time_keeps_direction() {
    let cfg = AutomaticRotation { enabled: true, sensitivity: 1_000_000 };
    let mut t = state_at_z5();
    update(&cfg, &mut t, 0);
    // cos(0) is exactly one in fixed point, so the direction is unchanged
    assert_eq!(t.eye, v3(0, 0, 5_000_000));
    assert_eq!(t.target, v3(0, 0, 0));
}

#[test]
fn rate_is_frame_rate_independent() {
    let cfg = AutomaticRotation { enabled: true, sensitivity: 500_000 };
    let mut t = state_at_z5();
    // 1.0 s at 0.5 rad/s matches 0.5 s at 1.0 rad/s up to rounding
    update(&cfg, &mut t, 1_000_000);
    let a = LookAngles::from_vector(v3(t.eye.x, t.eye.y, t.eye.z));
    assert!((a.yaw - 500_000).abs() <= 2_500, "yaw {}", a.yaw);
}
