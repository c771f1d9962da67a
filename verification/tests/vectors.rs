//! Fixed-point scalar and vector arithmetic, and the derived pose.

use orbit_camera::LookTransform;
use orbit_camera::fixed::RADIUS_MAX_FP;
use orbit_camera::fixed::RADIUS_MIN_FP;
use orbit_camera::fixed::clamp_fp;
use orbit_camera::fixed::isqrt_fp;
use orbit_camera::fixed::mul_fp;
use orbit_camera::fixed::wrap_angle;
use orbit_camera::trig::atan2_fp;
use orbit_camera::trig::cos_fp;
use orbit_camera::trig::sin_fp;
use orbit_camera::vec3::Vec3;

fn v3(x: i64, y: i64, z: i64) -> Vec3 {
    Vec3 { x, y, z }
}

#[test]
fn mul_fp_scales_and_rounds_toward_zero() {
    assert_eq!(mul_fp(2_000_000, 3_000_000), 6_000_000);
    assert_eq!(mul_fp(1_500_000, -2_000_000), -3_000_000);
    assert_eq!(mul_fp(1, 1), 0);
    assert_eq!(mul_fp(-1, 1), 0);
    assert_eq!(mul_fp(999_999, 999_999), 999_998);
}

#[test]
fn wrap_angle_keeps_sign_and_drops_whole_turns() {
    assert_eq!(wrap_angle(6_283_186), 0);
    assert_eq!(wrap_angle(6_283_187), 1);
    assert_eq!(wrap_angle(-6_283_187), -1);
    assert_eq!(wrap_angle(3_141_593), 3_141_593);
    assert_eq!(wrap_angle(-3_141_593), -3_141_593);
    assert_eq!(wrap_angle(12_566_372), 0);
}

#[test]
fn clamp_bounds() {
    assert_eq!(clamp_fp(5, 0, 10), 5);
    assert_eq!(clamp_fp(-5, 0, 10), 0);
    assert_eq!(clamp_fp(15, 0, 10), 10);
    assert_eq!(RADIUS_MIN_FP, 1_000);
    assert_eq!(RADIUS_MAX_FP, 1_000_000_000_000);
}

#[test]
fn isqrt_rounds_down() {
    assert_eq!(isqrt_fp(0), 0);
    assert_eq!(isqrt_fp(1), 1);
    assert_eq!(isqrt_fp(3), 1);
    assert_eq!(isqrt_fp(4), 2);
    assert_eq!(isqrt_fp(25_000_000_000_000), 5_000_000);
    assert_eq!(isqrt_fp(26_000_000_000_000), 5_099_019);
}

#[test]
fn trig_exact_values_at_zero_and_quarter() {
    assert_eq!(sin_fp(0), 0);
    assert_eq!(cos_fp(0), 1_000_000);
    assert_eq!(sin_fp(128_000), 127_651);
    assert_eq!(cos_fp(128_000), 991_819);
    assert_eq!(sin_fp(500_000), 479_426);
    assert_eq!(cos_fp(500_000), 877_583);
    assert_eq!(sin_fp(-500_000), -479_426);
    assert_eq!(cos_fp(-500_000), 877_583);
}

#[test]
fn atan2_quadrants() {
    assert_eq!(atan2_fp(0, 1_000_000), 0);
    assert_eq!(atan2_fp(0, -1_000_000), 3_141_593);
    assert_eq!(atan2_fp(1_000_000, 0), 1_570_796);
    assert_eq!(atan2_fp(-1_000_000, 0), -1_570_796);
    let a = atan2_fp(1_000_000, 1_000_000);
    assert!((a - 785_398).abs() <= 2_000, "atan2(1,1) {}", a);
    let b = atan2_fp(-1_000_000, -1_000_000);
    assert!((b + 2_356_194).abs() <= 2_000, "atan2(-1,-1) {}", b);
}

#[test]
fn vector_algebra() {
    let a = v3(1_000_000, 2_000_000, 3_000_000);
    let b = v3(-500_000, 1_000_000, 250_000);
    assert_eq!(a.add(&b), v3(500_000, 3_000_000, 3_250_000));
    assert_eq!(a.sub(&b), v3(1_500_000, 1_000_000, 2_750_000));
    assert_eq!(a.scale(2_000_000), v3(2_000_000, 4_000_000, 6_000_000));
    // dot of unit axes
    assert_eq!(v3(1_000_000, 0, 0).dot(&v3(0, 1_000_000, 0)), 0);
    assert_eq!(v3(1_000_000, 0, 0).dot(&v3(1_000_000, 0, 0)), 1_000_000);
    // right-handed cross of unit axes
    assert_eq!(
        v3(1_000_000, 0, 0).cross(&v3(0, 1_000_000, 0)),
        v3(0, 0, 1_000_000)
    );
}

#[test]
fn length_and_normalize() {
    let v = v3(3_000_000, 0, 4_000_000);
    assert_eq!(v.length(), 5_000_000);
    assert_eq!(v.normalize(), Some(v3(600_000, 0, 800_000)));
    assert_eq!(v3(0, 0, 0).normalize(), None);
    assert_eq!(v3(0, 0, 0).length(), 0);
}

#[test]
fn look_direction_fails_only_at_zero_radius() {
    let t = LookTransform::new(v3(1_000_000, 0, 0), v3(1_000_000, 0, 0), v3(0, 1_000_000, 0));
    assert_eq!(t.look_direction(), None);
    assert_eq!(t.radius(), 0);
    let t2 = LookTransform::new(v3(0, 0, 5_000_000), v3(0, 0, 0), v3(0, 1_000_000, 0));
    assert_eq!(t2.look_direction(), Some(v3(0, 0, -1_000_000)));
    assert_eq!(t2.radius(), 5_000_000);
}

#[test]
fn pose_basis_for_axis_aligned_camera() {
    let t = LookTransform::new(v3(0, 0, 5_000_000), v3(0, 0, 0), v3(0, 1_000_000, 0));
    let p = t.pose().unwrap();
    assert_eq!(p.position, v3(0, 0, 5_000_000));
    assert_eq!(p.forward, v3(0, 0, -1_000_000));
    assert_eq!(p.right, v3(-1_000_000, 0, 0));
    assert_eq!(p.up, v3(0, 1_000_000, 0));
}

#[test]
fn pose_degenerates_looking_straight_up() {
    let t = LookTransform::new(v3(0, -5_000_000, 0), v3(0, 0, 0), v3(0, 1_000_000, 0));
    assert!(t.pose().is_none());
    let t2 = LookTransform::new(v3(0, 0, 0), v3(0, 0, 0), v3(0, 1_000_000, 0));
    assert!(t2.pose().is_none());
}

#[test]
fn default_look_transform_rests_at_origin() {
    let t = LookTransform::default();
    assert_eq!(t.eye, v3(0, 0, 0));
    assert_eq!(t.target, v3(0, 0, 0));
    assert_eq!(t.up, v3(0, 1_000_000, 0));
}
