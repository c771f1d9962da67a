//! The orbit controller: yaw/pitch angles with wrap and clamp rules, and the
//! per-tick update that turns pointer, scroll and button input into orbit,
//! pan and zoom changes of a [`LookTransform`].

use crate::fixed::HALF_PI_FP;
use crate::fixed::MUL_ARG_MAX;
use crate::fixed::PI_FP;
use crate::fixed::PITCH_LIMIT_FP;
use crate::fixed::RADIUS_MAX_FP;
use crate::fixed::RADIUS_MIN_FP;
use crate::fixed::SCALE;
use crate::fixed::TWO_PI_FP;
use crate::fixed::abs_i;
use crate::fixed::clamp_fp;
use crate::fixed::clamp_spec;
use crate::fixed::div_scaled;
use crate::fixed::div_scaled_spec;
use crate::fixed::is_sqrt_floor;
use crate::fixed::lemma_abs_mul_le;
use crate::fixed::mul_fp;
use crate::fixed::mul_fp_spec;
use crate::fixed::sqrt_floor;
use crate::fixed::wrap_angle;
use crate::fixed::wrap_spec;
use crate::transform::LookTransform;
use crate::trig::atan2_spec;
use crate::trig::atan2_fp;
use crate::trig::cos_fp;
use crate::trig::cos_spec;
use crate::trig::fold_pi_spec;
use crate::trig::sin_fp;
use crate::trig::sin_spec;
use crate::vec3::Vec2;
use crate::vec3::Vec3;
use crate::vec3::add_spec;
use crate::vec3::cross_spec;
use crate::vec3::dot_spec;
use crate::vec3::length_spec;
use crate::vec3::normalize_spec;
use crate::vec3::scale_spec;
use crate::vec3::sub_spec;
use vstd::arithmetic::div_mod::lemma_mod_add_multiples_vanish;
use vstd::arithmetic::div_mod::lemma_mod_multiples_basic;
use vstd::arithmetic::div_mod::lemma_small_mod;
use vstd::prelude::*;

verus! {

/// When the candidate look direction's dot product with unit up exceeds this
/// (0.99 of a unit), the rotation step is rejected for the tick: the camera
/// is too close to a pole and yaw would degenerate.
pub const POLE_DOT_LIMIT_FP: i64 = 990_000;

/// A (yaw, pitch) pair representing a direction. Yaw is wrapped into
/// `(-TWO_PI_FP, TWO_PI_FP)`; pitch is clamped into
/// `[-PITCH_LIMIT_FP, PITCH_LIMIT_FP]` to keep the direction away from the
/// vertical singularity.
#[derive(Clone, Copy, Debug, PartialEq, Eq, Structural)]
pub struct LookAngles {
    pub yaw: i64,
    pub pitch: i64,
}

/// The angles derived from a direction vector: yaw is the plane angle of the
/// horizontal projection against the `z` axis (signed by `x`), pitch the
/// elevation against the horizontal plane (signed by `y`). A vector parallel
/// to up has no defined yaw; it maps to yaw zero and saturated pitch.
pub open spec fn from_vector_spec(v: Vec3) -> LookAngles {
    if v.x == 0 && v.z == 0 {
        LookAngles {
            yaw: 0,
            pitch: if v.y > 0 {
                PITCH_LIMIT_FP
            } else {
                (-PITCH_LIMIT_FP) as i64
            },
        }
    } else {
        LookAngles {
            yaw: wrap_spec(atan2_spec(v.x as int, v.z as int)) as i64,
            pitch: clamp_spec(
                atan2_spec(
                    v.y as int,
                    sqrt_floor((v.x as int) * (v.x as int) + (v.z as int) * (v.z as int)),
                ),
                -PITCH_LIMIT_FP as int,
                PITCH_LIMIT_FP as int,
            ) as i64,
        }
    }
}

/// The unit direction encoded by a (yaw, pitch) pair: the `z` axis rotated by
/// yaw about `y`, then tilted by pitch toward `y`.
pub open spec fn unit_vector_spec(a: LookAngles) -> Vec3 {
    Vec3 {
        x: mul_fp_spec(cos_spec(a.pitch as int), sin_spec(a.yaw as int)) as i64,
        y: sin_spec(a.pitch as int) as i64,
        z: mul_fp_spec(cos_spec(a.pitch as int), cos_spec(a.yaw as int)) as i64,
    }
}

impl LookAngles {
    /// Yaw wrapped, pitch clamped: the only states the setters produce.
    pub open spec fn wf(self) -> bool {
        &&& -TWO_PI_FP < self.yaw < TWO_PI_FP
    &&& -PITCH_LIMIT_FP <= self.pitch <= PITCH_LIMIT_FP
    }

    /// The state after setting yaw (wrapping applied).
    pub open spec fn set_yaw_spec(self, yaw: int) -> LookAngles {
        LookAngles { yaw: wrap_spec(yaw) as i64, pitch: self.pitch }
    }

    /// The state after setting pitch (clamping applied).
    pub open spec fn set_pitch_spec(self, pitch: int) -> LookAngles {
        LookAngles {
            yaw: self.yaw,
            pitch: clamp_spec(pitch, -PITCH_LIMIT_FP as int, PITCH_LIMIT_FP as int) as i64,
        }
    }

    /// The state after adding a yaw delta.
    pub open spec fn add_yaw_spec(self, delta: int) -> LookAngles {
        self.set_yaw_spec(self.yaw as int + delta)
    }

    /// The state after adding a pitch delta.
    pub open spec fn add_pitch_spec(self, delta: int) -> LookAngles {
        self.set_pitch_spec(self.pitch as int + delta)
    }

    /// The angles of the direction `v`; `v` must be non-zero, since the zero
    /// vector has no direction. The component bound is a machine limit.
    pub fn from_vector(v: Vec3) -> (r: LookAngles)
        requires
            !v.is_zero_spec(),
            v.in_box(4_000_000_000_000),
        ensures
            r == from_vector_spec(v),
            r.wf(),
    {
        let mut p = LookAngles::default();
        p.set_direction(v);
        p
    }

    /// The unit direction this pair encodes.
    pub fn unit_vector(self) -> (r: Vec3)
        requires
            -MUL_ARG_MAX <= self.yaw <= MUL_ARG_MAX,
            -MUL_ARG_MAX <= self.pitch <= MUL_ARG_MAX,
        ensures
            r == unit_vector_spec(self),
            r.in_box(SCALE as int),
    {
        let cp = cos_fp(self.pitch);
        let sp = sin_fp(self.pitch);
        let sy = sin_fp(self.yaw);
        let cy = cos_fp(self.yaw);
        proof {
            lemma_abs_mul_le(cp as int, sy as int, 1_000_000, 1_000_000);
            lemma_abs_mul_le(cp as int, cy as int, 1_000_000, 1_000_000);
        }
        Vec3 { x: mul_fp(cp, sy), y: sp, z: mul_fp(cp, cy) }
    }

    /// Re-derives both angles from the direction `v`.
    pub fn set_direction(&mut self, v: Vec3)
        requires
            !v.is_zero_spec(),
            v.in_box(4_000_000_000_000),
        ensures
            *final(self) == from_vector_spec(v),
            final(self).wf(),
    {
        if v.x == 0 && v.z == 0 {
            self.set_yaw(0);
            if v.y > 0 {
                self.set_pitch(HALF_PI_FP);
            } else {
                self.set_pitch(-HALF_PI_FP);
            }
            proof {
                lemma_small_mod(0, TWO_PI_FP as nat);
            }
        } else {
            let xz = Vec3 { x: v.x, y: 0, z: v.z };
            proof {
                assert(0 <= (v.x as int) * (v.x as int) <= 16_000_000_000_000_000_000_000_000) by (nonlinear_arith)
                    requires
                        -4_000_000_000_000 <= v.x <= 4_000_000_000_000,
                ;
                assert(0 <= (v.z as int) * (v.z as int) <= 16_000_000_000_000_000_000_000_000) by (nonlinear_arith)
                    requires
                        -4_000_000_000_000 <= v.z <= 4_000_000_000_000,
                ;
            }
            let len = xz.length();
            proof {
                assert(len as int <= 6_000_000_000_000) by (nonlinear_arith)
                    requires
                        0 <= len,
                        (len as int) * (len as int) <= 32_000_000_000_000_000_000_000_000,
                    ;
            }
            let yaw = atan2_fp(v.x, v.z);
            let pitch = atan2_fp(v.y, len);
            self.set_yaw(yaw);
            self.set_pitch(pitch);
        }
    }

    /// Sets yaw, wrapped into `(-TWO_PI_FP, TWO_PI_FP)`.
    pub fn set_yaw(&mut self, yaw: i64)
        requires
            -MUL_ARG_MAX <= yaw <= MUL_ARG_MAX,
        ensures
            *final(self) == old(self).set_yaw_spec(yaw as int),
            -TWO_PI_FP < final(self).yaw < TWO_PI_FP,
            final(self).pitch == old(self).pitch,
    {
        self.yaw = wrap_angle(yaw);
    }

    /// Adds a yaw delta, wrapping the sum.
    pub fn add_yaw(&mut self, delta: i64)
        requires
            old(self).wf(),
            abs_i(delta as int) <= 1_000_000_000_000_000_000,
        ensures
            *final(self) == old(self).add_yaw_spec(delta as int),
            -TWO_PI_FP < final(self).yaw < TWO_PI_FP,
            final(self).pitch == old(self).pitch,
    {
        let y = self.yaw + delta;
        self.set_yaw(y);
    }

    /// Sets pitch, clamped into `[-PITCH_LIMIT_FP, PITCH_LIMIT_FP]`: near the
    /// poles the camera transform degenerates, so pitch saturates instead of
    /// reaching them.
    pub fn set_pitch(&mut self, pitch: i64)
        ensures
            *final(self) == old(self).set_pitch_spec(pitch as int),
            -PITCH_LIMIT_FP <= final(self).pitch <= PITCH_LIMIT_FP,
            final(self).yaw == old(self).yaw,
    {
        self.pitch = clamp_fp(pitch, -PITCH_LIMIT_FP, PITCH_LIMIT_FP);
    }

    /// Adds a pitch delta, clamping the sum.
    pub fn add_pitch(&mut self, delta: i64)
        requires
            old(self).wf(),
            abs_i(delta as int) <= 1_000_000_000_000_000_000,
        ensures
            *final(self) == old(self).add_pitch_spec(delta as int),
            -PITCH_LIMIT_FP <= final(self).pitch <= PITCH_LIMIT_FP,
            final(self).yaw == old(self).yaw,
    {
        let p = self.pitch + delta;
        self.set_pitch(p);
    }
}

impl Default for LookAngles {
    /// Yaw and pitch both zero: the direction of the positive `z` axis.
    fn default() -> (r: LookAngles)
        ensures
            r.yaw == 0,
            r.pitch == 0,
            r.wf(),
    {
        LookAngles { yaw: 0, pitch: 0 }
    }
}

/// Pitch clamping law: adding any pitch delta keeps pitch inside
/// `[-PITCH_LIMIT_FP, PITCH_LIMIT_FP]`; a non-negative delta never lowers
/// pitch; one large delta saturates pitch exactly at the limit; and further
/// non-negative deltas leave a saturated pitch at the limit, so repeated
/// upward pitching converges to the limit and never exceeds it.
pub proof fn lemma_pitch_clamp(a: LookAngles, d: int)
    requires
        a.wf(),
    ensures
        -PITCH_LIMIT_FP <= a.add_pitch_spec(d).pitch <= PITCH_LIMIT_FP,
        d >= 0 ==> a.add_pitch_spec(d).pitch >= a.pitch,
        d >= 2 * PITCH_LIMIT_FP ==> a.add_pitch_spec(d).pitch == PITCH_LIMIT_FP,
        a.pitch == PITCH_LIMIT_FP && d >= 0 ==> a.add_pitch_spec(d).pitch == PITCH_LIMIT_FP,
        d <= -2 * PITCH_LIMIT_FP ==> a.add_pitch_spec(d).pitch == -PITCH_LIMIT_FP,
        a.pitch == -PITCH_LIMIT_FP && d <= 0 ==> a.add_pitch_spec(d).pitch == -PITCH_LIMIT_FP,
{
}

/// Yaw wrap law: adding one full turn leaves yaw unchanged modulo
/// `TWO_PI_FP`, and leaves the encoded direction exactly unchanged.
pub proof fn lemma_yaw_full_turn(a: LookAngles)
    requires
        a.wf(),
    ensures
        (a.add_yaw_spec(TWO_PI_FP as int).yaw - a.yaw) % (TWO_PI_FP as int) == 0,
        unit_vector_spec(a.add_yaw_spec(TWO_PI_FP as int)) == unit_vector_spec(a),
{
    let y = a.yaw as int;
    let m = TWO_PI_FP as int;
    if y >= 0 {
        lemma_mod_add_multiples_vanish(y, m);
        lemma_small_mod(y as nat, m as nat);
        assert(wrap_spec(y + m) == y);
        lemma_small_mod(0, m as nat);
    } else {
        lemma_small_mod((y + m) as nat, m as nat);
        assert(wrap_spec(y + m) == y + m);
        lemma_mod_multiples_basic(1, m);
        assert((y + m - y) % m == 0);
        lemma_small_mod((-y) as nat, m as nat);
        assert(wrap_spec(y) == y);
        let w1 = fold_pi_spec(wrap_spec(y));
        let w2 = fold_pi_spec(wrap_spec(y + m));
        if y == -(PI_FP as int) {
            assert(w1 == -(PI_FP as int));
            assert(w2 == PI_FP as int);
            assert(sin_spec(y + m) == 0);
            assert(sin_spec(y) == 0);
            assert(cos_spec(y + m) == cos_spec(y));
        } else {
            assert(w1 == w2);
        }
    }
}

/// Round-trip law, exact fragment: along the reference forward axis the
/// angle decomposition inverts exactly — for every positive length `z`, the
/// vector `(0, 0, z)` maps to yaw and pitch zero, and the encoded direction
/// equals its normalization, the unit forward vector. (Off this axis the
/// round trip holds only within the trigonometric approximation error and is
/// exercised by tests, not stated here.)
pub proof fn lemma_round_trip_forward_axis(z: i64)
    requires
        1 <= z <= 4_000_000_000_000,
    ensures
        from_vector_spec(Vec3 { x: 0, y: 0, z }) == (LookAngles { yaw: 0i64, pitch: 0i64 }),
        unit_vector_spec(from_vector_spec(Vec3 { x: 0, y: 0, z })) == normalize_spec(
            Vec3 { x: 0, y: 0, z },
        ),
        normalize_spec(Vec3 { x: 0, y: 0, z }) == (Vec3 { x: 0i64, y: 0i64, z: 1_000_000i64 }),
{
    let zi = z as int;
    assert(zi * zi < (zi + 1) * (zi + 1)) by (nonlinear_arith)
        requires
            1 <= zi,
    ;
    assert(is_sqrt_floor(zi * zi, zi));
    crate::fixed::lemma_sqrt_floor_unique(zi * zi, zi);
    vstd::arithmetic::div_mod::lemma_div_multiples_vanish(1_000_000, zi);
    vstd::arithmetic::div_mod::lemma_basic_div(0, zi);
    vstd::arithmetic::div_mod::lemma_basic_div(0, 1_000_000);
    assert(div_scaled_spec(0, zi) == 0);
    assert(crate::trig::atan_unit_spec(0) == 0);
    assert(atan2_spec(0, zi) == 0);
    assert(sqrt_floor(0 * 0 + zi * zi) == zi);
    lemma_small_mod(0, TWO_PI_FP as nat);
    assert(wrap_spec(0) == 0);
    assert(from_vector_spec(Vec3 { x: 0, y: 0, z }).yaw == 0);
    assert(from_vector_spec(Vec3 { x: 0, y: 0, z }).pitch == 0);
    vstd::arithmetic::div_mod::lemma_div_multiples_vanish(1_000_000, 1_000_000);
    assert(mul_fp_spec(1_000_000, 1_000_000) == 1_000_000);
    assert(mul_fp_spec(1_000_000, 0) == 0);
}

/// Pole guard law: on a rotating tick whose candidate direction comes too
/// close to the up axis, the tick re-uses the pre-tick direction — the eye is
/// re-placed along the angles of the old target-to-eye vector (or, in the
/// degenerate integer case, the state is held), never along the rejected
/// candidate, so the orientation cannot flip across the pole.
pub proof fn lemma_pole_guard_holds_direction(c: Controller, s: LookTransform, i: TickInput)
    requires
        effective_input_spec(i),
        i.rotate_active,
        pole_guard_hit_spec(c, s, i),
    ensures
        tick_spec(c, s, i) == s || tick_spec(c, s, i).eye == add_spec(
            new_target_spec(c, s, i),
            scale_spec(unit_vector_spec(base_angles_spec(s)), tick_radius_spec(c, s, i)),
        ),
{
}

/// The scroll unit a host reports: whole lines, or raw pixels to be divided
/// by the configured pixels-per-line.
#[derive(Clone, Copy, Debug, PartialEq, Eq, Structural)]
pub enum ScrollUnit {
    Line,
    Pixel,
}

/// One scroll event: a signed magnitude in micro-units and its unit.
#[derive(Clone, Copy, Debug, PartialEq, Eq, Structural)]
pub struct ScrollEvent {
    pub amount: i64,
    pub unit: ScrollUnit,
}

/// A 3rd person camera that orbits around the target: the user-tunable
/// sensitivities of the controller, all in micro-units.
#[derive(Clone, Copy, Debug, PartialEq, Eq, Structural)]
pub struct Controller {
    pub mouse_rotate_sensitivity: Vec2,
    pub mouse_translate_sensitivity: Vec2,
    pub mouse_wheel_zoom_sensitivity: i64,
    pub pixels_per_line: i64,
}

impl Controller {
    /// Sensitivity ranges under which every per-tick product stays inside
    /// machine integer ranges: rotate and translate sensitivities up to 10.0,
    /// zoom sensitivity up to 2.0 and pixels-per-line between 1.0 and 1000.0
    /// (these two bound each scroll event's zoom factor, so the tick's pure
    /// multiplicative fold fits in an `i64`).
    pub open spec fn wf(self) -> bool {
        &&& 0 <= self.mouse_rotate_sensitivity.x <= 10_000_000
        &&& 0 <= self.mouse_rotate_sensitivity.y <= 10_000_000
        &&& 0 <= self.mouse_translate_sensitivity.x <= 10_000_000
        &&& 0 <= self.mouse_translate_sensitivity.y <= 10_000_000
        &&& 0 <= self.mouse_wheel_zoom_sensitivity <= 2_000_000
        &&& 1_000_000 <= self.pixels_per_line <= 1_000_000_000
    }
}

impl Default for Controller {
    /// The stock feel: rotate 0.08, translate 0.1, zoom 0.2, 53 pixels per
    /// scroll line.
    fn default() -> (c: Controller)
        ensures
            c.mouse_rotate_sensitivity == (Vec2 { x: 80_000i64, y: 80_000i64 }),
            c.mouse_translate_sensitivity == (Vec2 { x: 100_000i64, y: 100_000i64 }),
            c.mouse_wheel_zoom_sensitivity == 200_000i64,
            c.pixels_per_line == 53_000_000i64,
            c.wf(),
    {
        Controller {
            mouse_rotate_sensitivity: Vec2 { x: 80_000, y: 80_000 },
            mouse_translate_sensitivity: Vec2 { x: 100_000, y: 100_000 },
            mouse_wheel_zoom_sensitivity: 200_000,
            pixels_per_line: 53_000_000,
        }
    }
}

/// Everything one tick consumes: elapsed seconds, the accumulated pointer
/// delta, the accumulated scroll events, and the two button states.
pub struct TickInput {
    pub dt: i64,
    pub cursor_delta: Vec2,
    pub scroll: Vec<ScrollEvent>,
    pub rotate_active: bool,
    pub pan_active: bool,
}

impl TickInput {
    /// Input ranges under which every per-tick product stays inside machine
    /// integer ranges: at most ten elapsed seconds, a pointer delta within a
    /// thousand units, at most eight scroll events of at most twenty units
    /// each (together with the sensitivity bounds, these keep the tick's pure
    /// multiplicative zoom fold inside an `i64`).
    pub open spec fn wf(self) -> bool {
        &&& 0 <= self.dt <= 10_000_000
        &&& abs_i(self.cursor_delta.x as int) <= 1_000_000_000
        &&& abs_i(self.cursor_delta.y as int) <= 1_000_000_000
        &&& self.scroll@.len() <= 8
        &&& forall|i: int|
            0 <= i < self.scroll@.len() ==> abs_i(
                (#[trigger] self.scroll@[i]).amount as int,
            ) <= 20_000_000
    }
}

/// A tick has an effect only when a held button pairs with a non-zero pointer
/// delta, or a scroll event arrived; otherwise the update leaves the state
/// untouched.
pub open spec fn effective_input_spec(i: TickInput) -> bool {
    ||| (i.rotate_active || i.pan_active) && !(i.cursor_delta.x == 0 && i.cursor_delta.y == 0)
    ||| i.scroll@.len() > 0
}

/// The yaw delta of a tick: elapsed time times sensitivity times pointer
/// delta, negated so that dragging right rotates the view right.
pub open spec fn yaw_delta_spec(c: Controller, i: TickInput) -> int {
    -mul_fp_spec(
        mul_fp_spec(i.dt as int, c.mouse_rotate_sensitivity.x as int),
        i.cursor_delta.x as int,
    )
}

/// The pitch delta of a tick: elapsed time times sensitivity times pointer
/// delta.
pub open spec fn pitch_delta_spec(c: Controller, i: TickInput) -> int {
    mul_fp_spec(
        mul_fp_spec(i.dt as int, c.mouse_rotate_sensitivity.y as int),
        i.cursor_delta.y as int,
    )
}

/// The angles of the target-to-eye direction before this tick's rotation.
pub open spec fn base_angles_spec(s: LookTransform) -> LookAngles {
    from_vector_spec(sub_spec(s.eye, s.target))
}

/// The angles after applying this tick's rotation deltas.
pub open spec fn candidate_angles_spec(c: Controller, s: LookTransform, i: TickInput) -> LookAngles {
    base_angles_spec(s).add_yaw_spec(yaw_delta_spec(c, i)).add_pitch_spec(pitch_delta_spec(c, i))
}

/// The pole guard: true when the candidate direction is nearly parallel to
/// unit up, in which case the rotation is rejected for this tick.
pub open spec fn pole_guard_hit_spec(c: Controller, s: LookTransform, i: TickInput) -> bool {
    abs_i(dot_spec(unit_vector_spec(candidate_angles_spec(c, s, i)), normalize_spec(s.up)))
        > POLE_DOT_LIMIT_FP as int
}

/// The angles the tick actually uses: the rotated pair when rotation is
/// active and clears the pole guard, otherwise the pre-tick pair.
pub open spec fn angles_used_spec(c: Controller, s: LookTransform, i: TickInput) -> LookAngles {
    if i.rotate_active && !pole_guard_hit_spec(c, s, i) {
        candidate_angles_spec(c, s, i)
    } else {
        base_angles_spec(s)
    }
}

/// The panned target: moved along the camera's right vector
/// (`up x forward`, normalized) by the `x` pan amount and along the camera's
/// local up (`forward x right`) by the `y` pan amount, both computed from the
/// pre-rotation basis of this tick. When that basis is degenerate (forward
/// parallel to up) the pan is skipped.
pub open spec fn pan_target_spec(c: Controller, s: LookTransform, i: TickInput) -> Vec3 {
    let f = normalize_spec(sub_spec(s.target, s.eye));
    let u = normalize_spec(s.up);
    let rc = cross_spec(u, f);
    if rc.is_zero_spec() {
        s.target
    } else {
        let right = normalize_spec(rc);
        let upl = cross_spec(f, right);
        let ax = mul_fp_spec(
            mul_fp_spec(i.dt as int, c.mouse_translate_sensitivity.x as int),
            i.cursor_delta.x as int,
        );
        let ay = mul_fp_spec(
            mul_fp_spec(i.dt as int, c.mouse_translate_sensitivity.y as int),
            i.cursor_delta.y as int,
        );
        add_spec(s.target, add_spec(scale_spec(right, ax), scale_spec(upl, ay)))
    }
}

/// The target after this tick: panned when panning is active, otherwise
/// unchanged.
pub open spec fn new_target_spec(c: Controller, s: LookTransform, i: TickInput) -> Vec3 {
    if i.pan_active {
        pan_target_spec(c, s, i)
    } else {
        s.target
    }
}

/// One scroll event in lines: line events pass through, pixel events are
/// divided by the configured pixels-per-line.
pub open spec fn scroll_lines_spec(e: ScrollEvent, ppl: int) -> int {
    match e.unit {
        ScrollUnit::Line => e.amount as int,
        ScrollUnit::Pixel => div_scaled_spec(e.amount as int, ppl),
    }
}

/// The multiplicative zoom factor of one scroll event,
/// `1 - amount * sensitivity`. Under [`Controller::wf`] and
/// [`TickInput::wf`] its magnitude is at most 41.0, so the per-tick fold
/// needs no saturation.
pub open spec fn zoom_factor_spec(e: ScrollEvent, c: Controller) -> int {
    (SCALE as int) - mul_fp_spec(
        scroll_lines_spec(e, c.pixels_per_line as int),
        c.mouse_wheel_zoom_sensitivity as int,
    )
}

/// All scroll events of a tick folded into one zoom scalar, starting at 1.0:
/// the pure multiplicative fold of the per-event factors.
pub open spec fn zoom_scalar_spec(events: Seq<ScrollEvent>, c: Controller) -> int
    decreases events.len(),
{
    if events.len() == 0 {
        SCALE as int
    } else {
        mul_fp_spec(zoom_scalar_spec(events.drop_last(), c), zoom_factor_spec(events.last(), c))
    }
}

/// The largest magnitude the zoom fold can reach after `n` admitted events:
/// one unit grown by a factor of at most 41 per event. After the eight events
/// [`TickInput::wf`] admits, this still fits an `i64`.
pub open spec fn zoom_cap(n: int) -> int {
    if n <= 0 {
        1_000_000
    } else if n == 1 {
        41_000_000
    } else if n == 2 {
        1_681_000_000
    } else if n == 3 {
        68_921_000_000
    } else if n == 4 {
        2_825_761_000_000
    } else if n == 5 {
        115_856_201_000_000
    } else if n == 6 {
        4_750_104_241_000_000
    } else if n == 7 {
        194_754_273_881_000_000
    } else {
        7_984_925_229_121_000_000
    }
}

/// The radius produced by a zoom scalar: the product, clamped into
/// `[RADIUS_MIN_FP, RADIUS_MAX_FP]` so zoom can never collapse the camera
/// onto its target nor send it to infinity.
pub open spec fn zoom_radius_spec(radius: int, scalar: int) -> int {
    clamp_spec(mul_fp_spec(scalar, radius), RADIUS_MIN_FP as int, RADIUS_MAX_FP as int)
}

/// The eye-to-target radius after this tick: the pre-tick radius (so panning
/// carries the eye along with the target at an unchanged distance), scaled by
/// the tick's zoom scalar and clamped.
pub open spec fn tick_radius_spec(c: Controller, s: LookTransform, i: TickInput) -> int {
    zoom_radius_spec(
        length_spec(sub_spec(s.target, s.eye)),
        zoom_scalar_spec(i.scroll@, c),
    )
}

/// The look state after one controller tick: on effective input, the target
/// is panned, the target-to-eye direction is rotated (subject to the pole
/// guard), the radius is zoomed and clamped, and the eye is re-placed at
/// `target + direction * radius`; otherwise the state is untouched. In the
/// degenerate integer case where the eye displacement rounds to zero the
/// whole tick is rejected and the state held, so the eye can never land on
/// the target.
pub open spec fn tick_spec(c: Controller, s: LookTransform, i: TickInput) -> LookTransform {
    if !effective_input_spec(i) {
        s
    } else {
        let disp = scale_spec(
            unit_vector_spec(angles_used_spec(c, s, i)),
            tick_radius_spec(c, s, i),
        );
        if disp.is_zero_spec() {
            s
        } else {
            let tgt = new_target_spec(c, s, i);
            LookTransform { eye: add_spec(tgt, disp), target: tgt, up: s.up }
        }
    }
}

/// Radius invariant law: however many zoom steps run in sequence, each
/// post-step radius lies in `[RADIUS_MIN_FP, RADIUS_MAX_FP]`.
pub open spec fn fold_zoom_spec(radius: int, scalars: Seq<int>) -> int
    decreases scalars.len(),
{
    if scalars.len() == 0 {
        radius
    } else {
        zoom_radius_spec(fold_zoom_spec(radius, scalars.drop_last()), scalars.last())
    }
}

/// Applying any non-empty sequence of zoom scalars to any starting radius
/// leaves the radius inside `[RADIUS_MIN_FP, RADIUS_MAX_FP]`.
pub proof fn lemma_radius_invariant(radius: int, scalars: Seq<int>)
    requires
        scalars.len() > 0,
    ensures
        RADIUS_MIN_FP <= fold_zoom_spec(radius, scalars) <= RADIUS_MAX_FP,
    decreases scalars.len(),
{
    if scalars.len() > 1 {
        lemma_radius_invariant(radius, scalars.drop_last());
    }
}

/// Multiplies a zoom scalar into a radius and clamps the product into
/// `[RADIUS_MIN_FP, RADIUS_MAX_FP]`. The bounds are machine limits matching
/// the zoom fold's saturation.
pub fn zoom_radius(radius: i64, scalar: i64) -> (r: i64)
    requires
        0 <= radius <= 10_000_000_000_000,
        abs_i(scalar as int) <= 8_000_000_000_000_000_000,
    ensures
        r as int == zoom_radius_spec(radius as int, scalar as int),
        RADIUS_MIN_FP <= r <= RADIUS_MAX_FP,
{
    let neg = scalar < 0;
    let sm: u64 = if neg {
        (-scalar) as u64
    } else {
        scalar as u64
    };
    proof {
        lemma_abs_mul_le(
            scalar as int,
            radius as int,
            8_000_000_000_000_000_000,
            10_000_000_000_000,
        );
    }
    let p: u128 = (sm as u128) * ((radius as u64) as u128);
    let q: u128 = p / 1_000_000;
    if neg {
        RADIUS_MIN_FP
    } else if q < 1_000 {
        RADIUS_MIN_FP
    } else if q > 1_000_000_000_000 {
        RADIUS_MAX_FP
    } else {
        q as i64
    }
}

/// The angle step of a tick: the pre-tick angles, rotated by the tick's
/// deltas when rotation is active, with the rotation rejected when the
/// candidate direction comes too close to the up pole.
fn compute_angles(c: &Controller, t: &LookTransform, input: &TickInput) -> (r: LookAngles)
    requires
        c.wf(),
        t.wf(),
        input.wf(),
        t.eye != t.target,
    ensures
        r == angles_used_spec(*c, *t, *input),
        r.wf(),
{
    let v = t.eye.sub(&t.target);
    proof {
        if v.is_zero_spec() {
            assert(t.eye == t.target);
        }
    }
    let base = LookAngles::from_vector(v);
    if input.rotate_active {
        let u = match t.up.normalize() {
            Some(u) => u,
            None => vstd::pervasive::unreached(),
        };
        proof {
            lemma_abs_mul_le(
                input.dt as int,
                c.mouse_rotate_sensitivity.x as int,
                10_000_000,
                10_000_000,
            );
            lemma_abs_mul_le(
                input.dt as int,
                c.mouse_rotate_sensitivity.y as int,
                10_000_000,
                10_000_000,
            );
        }
        let my = mul_fp(input.dt, c.mouse_rotate_sensitivity.x);
        let mp = mul_fp(input.dt, c.mouse_rotate_sensitivity.y);
        proof {
            lemma_abs_mul_le(my as int, input.cursor_delta.x as int, 100_000_000, 1_000_000_000);
            lemma_abs_mul_le(mp as int, input.cursor_delta.y as int, 100_000_000, 1_000_000_000);
        }
        let dyaw = -mul_fp(my, input.cursor_delta.x);
        let dpitch = mul_fp(mp, input.cursor_delta.y);
        let mut cand = base;
        cand.add_yaw(dyaw);
        cand.add_pitch(dpitch);
        let dir = cand.unit_vector();
        let d = dir.dot(&u);
        let guard = d < -POLE_DOT_LIMIT_FP || d > POLE_DOT_LIMIT_FP;
        if guard {
            base
        } else {
            cand
        }
    } else {
        base
    }
}

/// The pan step of a tick: the target after this tick's translation, moved
/// along the camera's right and local-up vectors of the pre-rotation basis.
fn compute_target(c: &Controller, t: &LookTransform, input: &TickInput) -> (r: Vec3)
    requires
        c.wf(),
        t.wf(),
        input.wf(),
        t.eye != t.target,
    ensures
        r == new_target_spec(*c, *t, *input),
        r.in_box(2_400_000_000_000),
{
    if input.pan_active {
        let u = match t.up.normalize() {
            Some(u) => u,
            None => vstd::pervasive::unreached(),
        };
        let d = t.target.sub(&t.eye);
        proof {
            if d.is_zero_spec() {
                assert(t.eye == t.target);
            }
        }
        let fwd = match d.normalize() {
            Some(f) => f,
            None => vstd::pervasive::unreached(),
        };
        let rc = u.cross(&fwd);
        if rc.is_zero() {
            t.target
        } else {
            let right = match rc.normalize() {
                Some(r) => r,
                None => vstd::pervasive::unreached(),
            };
            let upl = fwd.cross(&right);
            proof {
                lemma_abs_mul_le(
                    input.dt as int,
                    c.mouse_translate_sensitivity.x as int,
                    10_000_000,
                    10_000_000,
                );
                lemma_abs_mul_le(
                    input.dt as int,
                    c.mouse_translate_sensitivity.y as int,
                    10_000_000,
                    10_000_000,
                );
            }
            let mx = mul_fp(input.dt, c.mouse_translate_sensitivity.x);
            let my2 = mul_fp(input.dt, c.mouse_translate_sensitivity.y);
            proof {
                lemma_abs_mul_le(mx as int, input.cursor_delta.x as int, 100_000_000, 1_000_000_000);
                lemma_abs_mul_le(my2 as int, input.cursor_delta.y as int, 100_000_000, 1_000_000_000);
            }
            let ax = mul_fp(mx, input.cursor_delta.x);
            let ay = mul_fp(my2, input.cursor_delta.y);
            proof {
                lemma_abs_mul_le(right.x as int, ax as int, 1_000_000, 100_000_000_000);
                lemma_abs_mul_le(right.y as int, ax as int, 1_000_000, 100_000_000_000);
                lemma_abs_mul_le(right.z as int, ax as int, 1_000_000, 100_000_000_000);
                lemma_abs_mul_le(upl.x as int, ay as int, 2_000_000, 100_000_000_000);
                lemma_abs_mul_le(upl.y as int, ay as int, 2_000_000, 100_000_000_000);
                lemma_abs_mul_le(upl.z as int, ay as int, 2_000_000, 100_000_000_000);
            }
            let m1 = right.scale(ax);
            let m2 = upl.scale(ay);
            t.target.add(&m1.add(&m2))
        }
    } else {
        t.target
    }
}

/// The zoom step of a tick: all scroll events folded into one multiplicative
/// scalar, starting at 1.0.
fn compute_zoom(c: &Controller, input: &TickInput) -> (r: i64)
    requires
        c.wf(),
        input.wf(),
    ensures
        r as int == zoom_scalar_spec(input.scroll@, *c),
        abs_i(r as int) <= 7_984_925_229_121_000_000,
{
    let mut acc: i64 = SCALE;
    let mut idx: usize = 0;
    while idx < input.scroll.len()
        invariant
            c.wf(),
            input.wf(),
            0 <= idx <= input.scroll@.len(),
            acc as int == zoom_scalar_spec(input.scroll@.take(idx as int), *c),
            abs_i(acc as int) <= zoom_cap(idx as int),
        decreases input.scroll@.len() - idx,
    {
        let e = input.scroll[idx];
        let lines: i64 = match e.unit {
            ScrollUnit::Line => e.amount,
            ScrollUnit::Pixel => div_scaled(e.amount, c.pixels_per_line as u64),
        };
        proof {
            lemma_abs_mul_le(
                lines as int,
                c.mouse_wheel_zoom_sensitivity as int,
                20_000_000,
                2_000_000,
            );
        }
        let scaled = mul_fp(lines, c.mouse_wheel_zoom_sensitivity);
        let factor = SCALE - scaled;
        proof {
            lemma_abs_mul_le(acc as int, factor as int, zoom_cap(idx as int), 41_000_000);
            assert(zoom_cap(idx as int) * 41_000_000 == zoom_cap(idx as int + 1) * 1_000_000);
        }
        acc = mul_fp(acc, factor);
        proof {
            assert(input.scroll@.take(idx as int + 1).drop_last() =~= input.scroll@.take(
                idx as int,
            ));
            assert(input.scroll@.take(idx as int + 1).last() == input.scroll@[idx as int]);
        }
        idx = idx + 1;
    }
    proof {
        assert(input.scroll@.take(input.scroll@.len() as int) =~= input.scroll@);
    }
    acc
}

/// One orbit-controller tick over a single camera's look state.
///
/// Fixed order: derive the current direction, rotate it (pole-guarded), pan
/// the target using the pre-rotation basis, fold the scroll events into a
/// zoom scalar, clamp the zoomed pre-tick radius, and re-place the eye behind
/// the (possibly panned) target. A tick without effective input leaves the
/// state exactly unchanged, and the eye never lands on the target, so ticks
/// chain. The caller designates the one controlled camera; the eye must be
/// away from the target, or no direction exists to rotate.
pub fn system(c: &Controller, t: &mut LookTransform, input: &TickInput)
    requires
        c.wf(),
        old(t).wf(),
        input.wf(),
        old(t).eye != old(t).target,
    ensures
        *final(t) == tick_spec(*c, *old(t), *input),
        !effective_input_spec(*input) ==> *final(t) == *old(t),
        final(t).up == old(t).up,
        final(t).eye != final(t).target,
        effective_input_spec(*input) ==> RADIUS_MIN_FP <= tick_radius_spec(*c, *old(t), *input)
            <= RADIUS_MAX_FP,
        input.rotate_active && pole_guard_hit_spec(*c, *old(t), *input) ==> angles_used_spec(
            *c,
            *old(t),
            *input,
        ) == base_angles_spec(*old(t)),
{
    let no_cursor = input.cursor_delta.x == 0 && input.cursor_delta.y == 0;
    let effective = ((input.rotate_active || input.pan_active) && !no_cursor)
        || input.scroll.len() > 0;
    if !effective {
        return ;
    }
    let angles = compute_angles(c, t, input);
    let acc = compute_zoom(c, input);
    let r0 = t.target.sub(&t.eye).length();
    let rad = zoom_radius(r0, acc);
    let dir_out = angles.unit_vector();
    proof {
        lemma_abs_mul_le(dir_out.x as int, rad as int, 1_000_000, 1_000_000_000_000);
        lemma_abs_mul_le(dir_out.y as int, rad as int, 1_000_000, 1_000_000_000_000);
        lemma_abs_mul_le(dir_out.z as int, rad as int, 1_000_000, 1_000_000_000_000);
    }
    let disp = dir_out.scale(rad);
    if disp.is_zero() {
        return ;
    }
    let target1 = compute_target(c, t, input);
    let eye1 = target1.add(&disp);
    proof {
        if eye1 == target1 {
            assert(disp.x == 0 && disp.y == 0 && disp.z == 0);
        }
    }
    t.eye = eye1;
    t.target = target1;
}

} // verus!
