//! The camera's look state: an eye, the target it looks at, and a world-up
//! reference, plus the derived renderer-facing pose.

use crate::fixed::SCALE;
use crate::fixed::is_sqrt_floor;
use crate::fixed::sqrt_floor;
use crate::vec3::Vec3;
use crate::vec3::cross_spec;
use crate::vec3::length_spec;
use crate::vec3::norm_sq_spec;
use crate::vec3::normalize_spec;
use crate::vec3::sub_spec;
use vstd::prelude::*;

verus! {

/// An eye and the target it's looking at, with the world-up reference that
/// defines roll-free orientation. Mutated in place once per tick by exactly
/// one of the orbit controller and the automatic-rotation integrator.
#[derive(Clone, Copy, Debug, PartialEq, Eq, Structural)]
pub struct LookTransform {
    pub eye: Vec3,
    pub target: Vec3,
    pub up: Vec3,
}

/// A renderer-facing pose: a position and an orthogonal orientation basis.
/// `forward` looks from the eye toward the target; `right` and `up` complete
/// the camera frame.
#[derive(Clone, Copy, Debug, PartialEq, Eq, Structural)]
pub struct Pose {
    pub position: Vec3,
    pub right: Vec3,
    pub up: Vec3,
    pub forward: Vec3,
}

/// The pose of a look state is defined when the eye is away from the target
/// and the look direction is not parallel to the up reference.
pub open spec fn pose_defined_spec(t: LookTransform) -> bool {
    &&& !sub_spec(t.target, t.eye).is_zero_spec()
    &&& !t.up.is_zero_spec()
    &&& !cross_spec(
        normalize_spec(t.up),
        normalize_spec(sub_spec(t.target, t.eye)),
    ).is_zero_spec()
}

/// The derived pose: position at the eye, `forward` the unit look direction,
/// `right` the unit vector along `up x forward`, and the camera-local up
/// completing the frame as `forward x right`.
pub open spec fn pose_spec(t: LookTransform) -> Pose {
    let f = normalize_spec(sub_spec(t.target, t.eye));
    let u = normalize_spec(t.up);
    let r = normalize_spec(cross_spec(u, f));
    Pose { position: t.eye, right: r, up: cross_spec(f, r), forward: f }
}

impl LookTransform {
    /// Bounds under which every per-tick computation stays inside machine
    /// integer ranges, and a usable (non-zero) up reference.
    pub open spec fn wf(self) -> bool {
        &&& self.eye.in_box(2_000_000_000_000)
        &&& self.target.in_box(2_000_000_000_000)
        &&& self.up.in_box(10_000_000)
        &&& !self.up.is_zero_spec()
    }

    /// A look state from explicit eye, target and up values.
    pub fn new(eye: Vec3, target: Vec3, up: Vec3) -> (r: LookTransform)
        ensures
            r.eye == eye,
            r.target == target,
            r.up == up,
    {
        LookTransform { eye, target, up }
    }

    /// The eye-to-target distance, rounded down, in micro-units; zero exactly
    /// when the eye sits on the target.
    pub fn radius(&self) -> (r: i64)
        requires
            self.eye.in_box(2_000_000_000_000),
            self.target.in_box(2_000_000_000_000),
        ensures
            r as int == length_spec(sub_spec(self.target, self.eye)),
            0 <= r <= 10_000_000_000_000,
            r == 0 <==> self.eye == self.target,
    {
        let d = self.target.sub(&self.eye);
        let r = d.length();
        proof {
            if d.is_zero_spec() {
                assert(self.eye == self.target);
            }
        }
        r
    }

    /// The unit look direction, or `None` when the eye sits on the target and
    /// the direction is undefined.
    pub fn look_direction(&self) -> (r: Option<Vec3>)
        requires
            self.eye.in_box(2_000_000_000_000),
            self.target.in_box(2_000_000_000_000),
        ensures
            r is None <==> self.eye == self.target,
            self.eye != self.target ==> r == Some(
                normalize_spec(sub_spec(self.target, self.eye)),
            ),
    {
        let d = self.target.sub(&self.eye);
        proof {
            if d.is_zero_spec() {
                assert(self.eye == self.target);
            }
        }
        d.normalize()
    }

    /// The renderer pose for this look state, or `None` when the pose is
    /// degenerate (eye on target, or look direction parallel to up).
    pub fn pose(&self) -> (r: Option<Pose>)
        requires
            self.wf(),
        ensures
            r is Some <==> pose_defined_spec(*self),
            pose_defined_spec(*self) ==> r == Some(pose_spec(*self)),
    {
        let d = self.target.sub(&self.eye);
        let f_opt = d.normalize();
        match f_opt {
            None => None,
            Some(f) => {
                let u = match self.up.normalize() {
                    Some(u) => u,
                    None => vstd::pervasive::unreached(),
                };
                let rc = u.cross(&f);
                match rc.normalize() {
                    None => None,
                    Some(right) => {
                        let up_local = f.cross(&right);
                        Some(Pose { position: self.eye, right, up: up_local, forward: f })
                    },
                }
            },
        }
    }
}

impl Default for LookTransform {
    /// The rest state: eye and target at the origin, up along the positive
    /// `y` axis.
    fn default() -> (r: LookTransform)
        ensures
            r.eye.is_zero_spec(),
            r.target.is_zero_spec(),
            r.up == (Vec3 { x: 0i64, y: 1_000_000i64, z: 0i64 }),
    {
        LookTransform {
            eye: Vec3 { x: 0, y: 0, z: 0 },
            target: Vec3 { x: 0, y: 0, z: 0 },
            up: Vec3 { x: 0, y: 1_000_000, z: 0 },
        }
    }
}

} // verus!
