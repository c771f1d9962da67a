//! Angle representation: wrap, clamp, direction round trips.

use orbit_camera::LookAngles;
use orbit_camera::fixed::PITCH_LIMIT_FP;
use orbit_camera::fixed::TWO_PI_FP;
use orbit_camera::vec3::Vec3;

fn v3(x: i64, y: i64, z: i64) -> Vec3 {
    Vec3 { x, y, z }
}

fn normalize_of(v: Vec3) -> Vec3 {
    v.normalize().unwrap()
}

#[test]
fn pitch_clamp_converges_to_limit() {
    let mut a = LookAngles::default();
    for _ in 0..10 {
        a.add_pitch(300_000);
        assert!(a.pitch <= PITCH_LIMIT_FP);
    }
    assert_eq!(a.pitch, PITCH_LIMIT_FP);
    // a further positive step stays exactly at the limit
    a.add_pitch(300_000);
    assert_eq!(a.pitch, PITCH_LIMIT_FP);
}

#[test]
fn pitch_clamp_converges_to_negative_limit() {
    let mut a = LookAngles::default();
    for _ in 0..10 {
        a.add_pitch(-300_000);
        assert!(a.pitch >= -PITCH_LIMIT_FP);
    }
    assert_eq!(a.pitch, -PITCH_LIMIT_FP);
    a.add_pitch(-300_000);
    assert_eq!(a.pitch, -PITCH_LIMIT_FP);
}

#[test]
fn yaw_full_turn_returns_to_start() {
    let mut a = LookAngles::default();
    a.set_yaw(700_000);
    let before = a;
    a.add_yaw(TWO_PI_FP);
    assert_eq!(a.yaw, 700_000);
    assert_eq!(a.unit_vector(), before.unit_vector());
}

#[test]
fn yaw_full_turn_negative_start() {
    let mut a = LookAngles::default();
    a.set_yaw(-700_000);
    let before = a;
    a.add_yaw(TWO_PI_FP);
    assert_eq!((a.yaw - before.yaw) % TWO_PI_FP, 0);
    assert_eq!(a.unit_vector(), before.unit_vector());
}

#[test]
fn yaw_wraps_into_open_interval() {
    let mut a = LookAngles::default();
    a.set_yaw(TWO_PI_FP + 1);
    assert_eq!(a.yaw, 1);
    a.set_yaw(-(TWO_PI_FP + 1));
    assert_eq!(a.yaw, -1);
    a.set_yaw(TWO_PI_FP);
    assert_eq!(a.yaw, 0);
}

#[test]
fn from_vector_of_forward_axis_is_zero() {
    let a = LookAngles::from_vector(v3(0, 0, 5_000_000));
    assert_eq!(a.yaw, 0);
    assert_eq!(a.pitch, 0);
    assert_eq!(a.unit_vector(), v3(0, 0, 1_000_000));
}

#[test]
fn from_vector_at_poles_saturates_pitch() {
    let up = LookAngles::from_vector(v3(0, 3_000_000, 0));
    assert_eq!(up.yaw, 0);
    assert_eq!(up.pitch, PITCH_LIMIT_FP);
    let down = LookAngles::from_vector(v3(0, -3_000_000, 0));
    assert_eq!(down.yaw, 0);
    assert_eq!(down.pitch, -PITCH_LIMIT_FP);
}

#[test]
fn round_trip_diagonal() {
    let v = v3(1_000_000, 1_000_000, 1_000_000);
    let w = LookAngles::from_vector(v).unit_vector();
    let n = normalize_of(v);
    assert!((w.x - n.x).abs() <= 5_000, "x {} vs {}", w.x, n.x);
    assert!((w.y - n.y).abs() <= 5_000, "y {} vs {}", w.y, n.y);
    assert!((w.z - n.z).abs() <= 5_000, "z {} vs {}", w.z, n.z);
}

#[test]
fn round_trip_mixed_signs() {
    for v in [
        v3(3_000_000, -2_000_000, 1_000_000),
        v3(-5_000_000, 2_000_000, -7_000_000),
        v3(-1_000_000, 0, 1_000_000),
        v3(250_000, 100_000, -400_000),
    ] {
        let w = LookAngles::from_vector(v).unit_vector();
        let n = normalize_of(v);
        assert!((w.x - n.x).abs() <= 5_000, "x {} vs {}", w.x, n.x);
        assert!((w.y - n.y).abs() <= 5_000, "y {} vs {}", w.y, n.y);
        assert!((w.z - n.z).abs() <= 5_000, "z {} vs {}", w.z, n.z);
    }
}

#[test]
fn set_direction_matches_from_vector() {
    let v = v3(2_000_000, 500_000, -1_000_000);
    let mut a = LookAngles::default();
    a.set_direction(v);
    let b = LookAngles::from_vector(v);
    assert_eq!(a, b);
}
