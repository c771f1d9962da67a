//! The automatic-rotation integrator: a constant-rate orbit about the up
//! axis, applied to the look state over elapsed time, independent of user
//! input.

use crate::fixed::SCALE;
use crate::fixed::lemma_abs_mul_le;
use crate::fixed::mul_fp;
use crate::fixed::mul_fp_spec;
use crate::transform::LookTransform;
use crate::trig::cos_fp;
use crate::trig::cos_spec;
use crate::trig::sin_fp;
use crate::trig::sin_spec;
use crate::vec3::Vec3;
use crate::vec3::add_spec;
use crate::vec3::cross_spec;
use crate::vec3::dot_spec;
use crate::vec3::length_spec;
use crate::vec3::normalize_spec;
use crate::vec3::scale_spec;
use crate::vec3::sub_spec;
use vstd::prelude::*;

verus! {

/// Marks a camera that the automatic-rotation integrator drives.
pub struct Marker;

/// Configuration of the automatic rotation: a process-wide on/off switch and
/// a rate in micro-radians per second.
pub struct AutomaticRotation {
    pub enabled: bool,
    pub sensitivity: i64,
}

impl AutomaticRotation {
    /// Rate range under which the per-tick angle stays inside the
    /// trigonometry's domain (up to ten radians per second).
    pub open spec fn wf(self) -> bool {
        0 <= self.sensitivity <= 10_000_000
    }
}

impl Default for AutomaticRotation {
    /// Disabled, at one radian per second.
    fn default() -> (r: AutomaticRotation)
        ensures
            !r.enabled,
            r.sensitivity == 1_000_000i64,
            r.wf(),
    {
        AutomaticRotation { enabled: false, sensitivity: 1_000_000 }
    }
}

/// The eye-to-target forward direction rotated by `theta` micro-radians about
/// unit up, by the axis-angle (Rodrigues) formula
/// `f * cos + (u x f) * sin + u * (u . f) * (1 - cos)`.
pub open spec fn rotated_forward_spec(s: LookTransform, theta: int) -> Vec3 {
    let u = normalize_spec(s.up);
    let f = normalize_spec(sub_spec(s.target, s.eye));
    let c = cos_spec(theta);
    add_spec(
        add_spec(scale_spec(f, c), scale_spec(cross_spec(u, f), sin_spec(theta))),
        scale_spec(u, mul_fp_spec(dot_spec(u, f), (SCALE as int) - c)),
    )
}

/// The look state after one integrator step: when enabled, the forward
/// direction is rotated by `sensitivity * dt` about up and the eye re-placed
/// at the old distance behind the (unchanged) target; when disabled, or in
/// the degenerate integer cases where the rotated direction or the eye
/// displacement collapses to zero, the state is untouched, so the eye can
/// never land on the target.
pub open spec fn update_spec(cfg: AutomaticRotation, s: LookTransform, dt: int) -> LookTransform {
    if !cfg.enabled {
        s
    } else {
        let fr = rotated_forward_spec(s, mul_fp_spec(cfg.sensitivity as int, dt));
        if fr.is_zero_spec() {
            s
        } else {
            let disp = scale_spec(normalize_spec(fr), length_spec(sub_spec(s.target, s.eye)));
            if disp.is_zero_spec() {
                s
            } else {
                LookTransform { eye: sub_spec(s.target, disp), target: s.target, up: s.up }
            }
        }
    }
}

/// One automatic-rotation step: rotates the forward direction by
/// `sensitivity * dt` micro-radians about up and re-places the eye at the
/// old eye-to-target distance. Frame-rate independent: the rate is per
/// second, scaled by the elapsed time. The eye must be away from the target
/// when the integrator is enabled, or no direction exists to rotate.
pub fn update(cfg: &AutomaticRotation, t: &mut LookTransform, dt: i64)
    requires
        cfg.wf(),
        old(t).wf(),
        0 <= dt <= 10_000_000,
        cfg.enabled ==> old(t).eye != old(t).target,
    ensures
        *final(t) == update_spec(*cfg, *old(t), dt as int),
        !cfg.enabled ==> *final(t) == *old(t),
        final(t).target == old(t).target,
        final(t).up == old(t).up,
        old(t).eye != old(t).target ==> final(t).eye != final(t).target,
{
    if !cfg.enabled {
        return ;
    }
    proof {
        lemma_abs_mul_le(cfg.sensitivity as int, dt as int, 10_000_000, 10_000_000);
    }
    let theta = mul_fp(cfg.sensitivity, dt);
    let u = match t.up.normalize() {
        Some(u) => u,
        None => vstd::pervasive::unreached(),
    };
    let d = t.target.sub(&t.eye);
    proof {
        if d.is_zero_spec() {
            assert(old(t).eye == old(t).target);
        }
    }
    let f = match d.normalize() {
        Some(f) => f,
        None => vstd::pervasive::unreached(),
    };
    let c = cos_fp(theta);
    let s = sin_fp(theta);
    let t1 = f.scale(c);
    let uf = u.cross(&f);
    let t2 = uf.scale(s);
    let d2 = u.dot(&f);
    proof {
        lemma_abs_mul_le(d2 as int, (SCALE as int) - c as int, 3_000_000, 2_000_000);
    }
    let k = mul_fp(d2, SCALE - c);
    let t3 = u.scale(k);
    proof {
        lemma_abs_mul_le(f.x as int, c as int, 1_000_000, 1_000_000);
        lemma_abs_mul_le(f.y as int, c as int, 1_000_000, 1_000_000);
        lemma_abs_mul_le(f.z as int, c as int, 1_000_000, 1_000_000);
        lemma_abs_mul_le(uf.x as int, s as int, 2_000_000, 1_000_000);
        lemma_abs_mul_le(uf.y as int, s as int, 2_000_000, 1_000_000);
        lemma_abs_mul_le(uf.z as int, s as int, 2_000_000, 1_000_000);
        lemma_abs_mul_le(u.x as int, k as int, 1_000_000, 6_000_000);
        lemma_abs_mul_le(u.y as int, k as int, 1_000_000, 6_000_000);
        lemma_abs_mul_le(u.z as int, k as int, 1_000_000, 6_000_000);
    }
    let fr = t1.add(&t2).add(&t3);
    let fu = match fr.normalize() {
        Some(fu) => fu,
        None => {
            return ;
        },
    };
    let radius = d.length();
    proof {
        lemma_abs_mul_le(fu.x as int, radius as int, 1_000_000, 10_000_000_000_000);
        lemma_abs_mul_le(fu.y as int, radius as int, 1_000_000, 10_000_000_000_000);
        lemma_abs_mul_le(fu.z as int, radius as int, 1_000_000, 10_000_000_000_000);
    }
    let disp = fu.scale(radius);
    if disp.is_zero() {
        return ;
    }
    let eye1 = t.target.sub(&disp);
    proof {
        if eye1 == t.target {
            assert(disp.x == 0 && disp.y == 0 && disp.z == 0);
        }
    }
    t.eye = eye1;
}

} // verus!
