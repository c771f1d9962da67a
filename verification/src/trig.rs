//! Polynomial trigonometry on micro-radian angles.
//!
//! `sin_fp` and `cos_fp` reduce their argument into a quarter turn and
//! evaluate a truncated power series; `atan2_fp` maps a coordinate pair to its
//! signed plane angle with a rational arctangent approximation. Each function
//! returns exactly the value of its spec-level mirror, so the controller's
//! contracts are stated over precise integers.

use crate::fixed::HALF_PI_FP;
use crate::fixed::PI_FP;
use crate::fixed::SCALE;
use crate::fixed::TWO_PI_FP;
use crate::fixed::abs_i;
use crate::fixed::clamp_spec;
use crate::fixed::div_scaled;
use crate::fixed::div_scaled_spec;
use crate::fixed::wrap_angle;
use crate::fixed::wrap_spec;
use vstd::arithmetic::div_mod::lemma_div_is_ordered;
use vstd::prelude::*;

verus! {

/// A wrapped angle folded from `(-TWO_PI_FP, TWO_PI_FP)` into
/// `[-PI_FP, PI_FP]` by moving one whole turn.
pub open spec fn fold_pi_spec(w: int) -> int {
    if w > PI_FP {
        w - TWO_PI_FP
    } else if w < -PI_FP {
        w + TWO_PI_FP
    } else {
        w
    }
}

/// Truncated sine series on a first-quadrant angle `s` (micro-radians),
/// clamped into `[0, SCALE]`.
pub open spec fn sin_quarter_spec(s: int) -> int {
    let q = (s * s) / 1_000_000;
    let s3 = (q * s) / 1_000_000;
    let s5 = (s3 * q) / 1_000_000;
    let s7 = (s5 * q) / 1_000_000;
    clamp_spec(s - s3 / 6 + s5 / 120 - s7 / 5040, 0, SCALE as int)
}

/// Truncated cosine series on a first-quadrant angle `s` (micro-radians),
/// clamped into `[0, SCALE]`.
pub open spec fn cos_quarter_spec(s: int) -> int {
    let q = (s * s) / 1_000_000;
    let q2 = (q * q) / 1_000_000;
    let q3 = (q2 * q) / 1_000_000;
    let q4 = (q3 * q) / 1_000_000;
    clamp_spec((SCALE as int) - q / 2 + q2 / 24 - q3 / 720 + q4 / 40320, 0, SCALE as int)
}

/// Sine of an arbitrary micro-radian angle: wrap, fold to a half turn, take
/// the quarter-turn series on the magnitude, and restore the sign.
pub open spec fn sin_spec(x: int) -> int {
    let w = fold_pi_spec(wrap_spec(x));
    let s = abs_i(w);
    let core = if s > HALF_PI_FP {
        sin_quarter_spec((PI_FP as int) - s)
    } else {
        sin_quarter_spec(s)
    };
    if w < 0 {
        -core
    } else {
        core
    }
}

/// Cosine of an arbitrary micro-radian angle; even in its argument and
/// negative beyond a quarter turn.
pub open spec fn cos_spec(x: int) -> int {
    let w = fold_pi_spec(wrap_spec(x));
    let s = abs_i(w);
    if s > HALF_PI_FP {
        -cos_quarter_spec((PI_FP as int) - s)
    } else {
        cos_quarter_spec(s)
    }
}

/// Rational arctangent approximation on a ratio `t` in `[0, SCALE]`
/// (micro-units); result in micro-radians, within `[0, HALF_PI_FP)`.
pub open spec fn atan_unit_spec(t: int) -> int {
    let a = (785_398 * t) / 1_000_000;
    let b1 = (t * (1_000_000 - t)) / 1_000_000;
    let c1 = 244_700 + (66_300 * t) / 1_000_000;
    a + (b1 * c1) / 1_000_000
}

/// Signed plane angle of the point `(x, y)`, in micro-radians within
/// `[-PI_FP, PI_FP]`; the angle is measured from the positive `x` axis and
/// carries the sign of `y`.
pub open spec fn atan2_spec(y: int, x: int) -> int {
    let ay = abs_i(y);
    let ax = abs_i(x);
    let base = if ax >= ay {
        atan_unit_spec(div_scaled_spec(ay, ax))
    } else {
        (HALF_PI_FP as int) - atan_unit_spec(div_scaled_spec(ax, ay))
    };
    let m = if x >= 0 {
        base
    } else {
        (PI_FP as int) - base
    };
    if y < 0 {
        -m
    } else {
        m
    }
}

/// Fixed-point product of two non-negative micro-unit values:
/// `a * b / 1_000_000`, rounded down. The bound on `a * b` is a machine
/// limit: the raw product must fit in `u64`.
fn umul_fp(a: u64, b: u64) -> (r: u64)
    requires
        (a as int) * (b as int) <= 18_000_000_000_000_000_000,
    ensures
        r as int == ((a as int) * (b as int)) / 1_000_000,
{
    let p: u64 = a * b;
    p / 1_000_000
}

/// Quarter-turn sine series; exact mirror of [`sin_quarter_spec`].
fn sin_quarter(s: u64) -> (r: u64)
    requires
        s <= 1_570_800,
    ensures
        r as int == sin_quarter_spec(s as int),
        r <= 1_000_000,
{
    proof {
        assert((s as int) * (s as int) <= 2_500_000_000_000) by (nonlinear_arith)
            requires
                s <= 1_570_800,
        ;
    }
    let q: u64 = umul_fp(s, s);
    proof {
        lemma_div_is_ordered((s as int) * (s as int), 2_500_000_000_000, 1_000_000);
        assert((q as int) * (s as int) <= 4_000_000_000_000_000) by (nonlinear_arith)
            requires
                q <= 2_500_000,
                s <= 1_570_800,
        ;
    }
    let s3: u64 = umul_fp(q, s);
    proof {
        lemma_div_is_ordered((q as int) * (s as int), 4_000_000_000_000_000, 1_000_000);
        assert((s3 as int) * (q as int) <= 10_000_000_000_000_000) by (nonlinear_arith)
            requires
                s3 <= 4_000_000_000,
                q <= 2_500_000,
        ;
    }
    let s5: u64 = umul_fp(s3, q);
    proof {
        lemma_div_is_ordered((s3 as int) * (q as int), 10_000_000_000_000_000, 1_000_000);
        assert((s5 as int) * (q as int) <= 25_000_000_000_000_000) by (nonlinear_arith)
            requires
                s5 <= 10_000_000_000,
                q <= 2_500_000,
        ;
    }
    let s7: u64 = umul_fp(s5, q);
    let t: u64 = s + s5 / 120;
    let u: u64 = s3 / 6 + s7 / 5040;
    let c: u64 = if t >= u {
        t - u
    } else {
        0
    };
    if c > 1_000_000 {
        1_000_000
    } else {
        c
    }
}

/// Quarter-turn cosine series; exact mirror of [`cos_quarter_spec`].
fn cos_quarter(s: u64) -> (r: u64)
    requires
        s <= 1_570_800,
    ensures
        r as int == cos_quarter_spec(s as int),
        r <= 1_000_000,
{
    proof {
        assert((s as int) * (s as int) <= 2_500_000_000_000) by (nonlinear_arith)
            requires
                s <= 1_570_800,
        ;
    }
    let q: u64 = umul_fp(s, s);
    proof {
        lemma_div_is_ordered((s as int) * (s as int), 2_500_000_000_000, 1_000_000);
        assert((q as int) * (q as int) <= 6_250_000_000_000) by (nonlinear_arith)
            requires
                q <= 2_500_000,
        ;
    }
    let q2: u64 = umul_fp(q, q);
    proof {
        lemma_div_is_ordered((q as int) * (q as int), 6_250_000_000_000, 1_000_000);
        assert((q2 as int) * (q as int) <= 15_625_000_000_000) by (nonlinear_arith)
            requires
                q2 <= 6_250_000,
                q <= 2_500_000,
        ;
    }
    let q3: u64 = umul_fp(q2, q);
    proof {
        lemma_div_is_ordered((q2 as int) * (q as int), 15_625_000_000_000, 1_000_000);
        assert((q3 as int) * (q as int) <= 39_062_500_000_000) by (nonlinear_arith)
            requires
                q3 <= 15_625_000,
                q <= 2_500_000,
        ;
    }
    let q4: u64 = umul_fp(q3, q);
    let t: u64 = 1_000_000 + q2 / 24 + q4 / 40320;
    let u: u64 = q / 2 + q3 / 720;
    let c: u64 = if t >= u {
        t - u
    } else {
        0
    };
    if c > 1_000_000 {
        1_000_000
    } else {
        c
    }
}

/// Sine of a micro-radian angle; exact mirror of [`sin_spec`], always in
/// `[-SCALE, SCALE]`.
pub fn sin_fp(x: i64) -> (r: i64)
    requires
        -4_000_000_000_000_000_000 <= x <= 4_000_000_000_000_000_000,
    ensures
        r as int == sin_spec(x as int),
        -SCALE <= r <= SCALE,
{
    let w0 = wrap_angle(x);
    let w: i64 = if w0 > PI_FP {
        w0 - TWO_PI_FP
    } else if w0 < -PI_FP {
        w0 + TWO_PI_FP
    } else {
        w0
    };
    let s: u64 = if w < 0 {
        (-w) as u64
    } else {
        w as u64
    };
    let core: u64 = if s > 1_570_796 {
        sin_quarter(3_141_593 - s)
    } else {
        sin_quarter(s)
    };
    let c = core as i64;
    if w < 0 {
        -c
    } else {
        c
    }
}

/// Cosine of a micro-radian angle; exact mirror of [`cos_spec`], always in
/// `[-SCALE, SCALE]`.
pub fn cos_fp(x: i64) -> (r: i64)
    requires
        -4_000_000_000_000_000_000 <= x <= 4_000_000_000_000_000_000,
    ensures
        r as int == cos_spec(x as int),
        -SCALE <= r <= SCALE,
{
    let w0 = wrap_angle(x);
    let w: i64 = if w0 > PI_FP {
        w0 - TWO_PI_FP
    } else if w0 < -PI_FP {
        w0 + TWO_PI_FP
    } else {
        w0
    };
    let s: u64 = if w < 0 {
        (-w) as u64
    } else {
        w as u64
    };
    if s > 1_570_796 {
        let core = cos_quarter(3_141_593 - s);
        -(core as i64)
    } else {
        let core = cos_quarter(s);
        core as i64
    }
}

/// Arctangent of a micro-unit ratio `t`; exact mirror of [`atan_unit_spec`].
fn atan_unit(t: u64) -> (r: u64)
    requires
        t <= 1_000_000,
    ensures
        r as int == atan_unit_spec(t as int),
        r <= 900_000,
{
    let a: u64 = umul_fp(785_398, t);
    proof {
        lemma_div_is_ordered(785_398 * (t as int), 785_398_000_000_000_000, 1_000_000);
        assert((t as int) * (1_000_000 - (t as int)) <= 250_000_000_000) by (nonlinear_arith)
            requires
                0 <= t <= 1_000_000,
        ;
    }
    let b1: u64 = umul_fp(t, 1_000_000 - t);
    let c1: u64 = 244_700 + umul_fp(66_300, t);
    proof {
        lemma_div_is_ordered((t as int) * (1_000_000 - (t as int)), 250_000_000_000, 1_000_000);
        lemma_div_is_ordered(66_300 * (t as int), 66_300_000_000_000, 1_000_000);
        assert((b1 as int) * (c1 as int) <= 77_750_000_000) by (nonlinear_arith)
            requires
                b1 <= 250_000,
                c1 <= 311_000,
        ;
        lemma_div_is_ordered((b1 as int) * (c1 as int), 77_750_000_000, 1_000_000);
    }
    let b: u64 = umul_fp(b1, c1);
    a + b
}

/// Signed plane angle of `(x, y)`; exact mirror of [`atan2_spec`]. The origin
/// is excluded: there the angle is undefined. The magnitude bounds are
/// machine limits that keep the internal ratio inside `u64`.
pub fn atan2_fp(y: i64, x: i64) -> (r: i64)
    requires
        !(y == 0 && x == 0),
        -6_000_000_000_000 <= y <= 6_000_000_000_000,
        -6_000_000_000_000 <= x <= 6_000_000_000_000,
    ensures
        r as int == atan2_spec(y as int, x as int),
        -PI_FP <= r <= PI_FP,
{
    let ay: i64 = if y < 0 {
        -y
    } else {
        y
    };
    let ax: i64 = if x < 0 {
        -x
    } else {
        x
    };
    let base: i64 = if ax >= ay {
        let t = div_scaled(ay, ax as u64);
        atan_unit(t as u64) as i64
    } else {
        let t = div_scaled(ax, ay as u64);
        HALF_PI_FP - (atan_unit(t as u64) as i64)
    };
    let m: i64 = if x >= 0 {
        base
    } else {
        PI_FP - base
    };
    if y < 0 {
        -m
    } else {
        m
    }
}

} // verus!
