//! Fixed-point scalar arithmetic in micro-units (`1_000_000` is `1.0`).
//!
//! Every executable function here has an exact contract: its result equals a
//! spec-level mirror of the same integer computation, so callers reason about
//! the precise values, not approximations.

use vstd::arithmetic::div_mod::lemma_div_is_ordered;
use vstd::arithmetic::div_mod::lemma_div_is_ordered_by_denominator;
use vstd::arithmetic::div_mod::lemma_div_multiples_vanish;
use vstd::arithmetic::div_mod::lemma_small_mod;
use vstd::prelude::*;

verus! {

/// One whole unit (`1.0`) in micro-units.
pub const SCALE: i64 = 1_000_000;

/// The angle pi, in micro-radians.
pub const PI_FP: i64 = 3_141_593;

/// The angle pi/2, in micro-radians.
pub const HALF_PI_FP: i64 = 1_570_796;

/// The angle pi/4, in micro-radians.
pub const QUARTER_PI_FP: i64 = 785_398;

/// One full turn (2*pi), in micro-radians. Yaw is wrapped into
/// `(-TWO_PI_FP, TWO_PI_FP)`.
pub const TWO_PI_FP: i64 = 6_283_186;

/// Safety margin kept between pitch and the vertical poles, in micro-radians
/// (0.01 rad), so that yaw never becomes undefined.
pub const PITCH_EPSILON_FP: i64 = 10_000;

/// The largest pitch magnitude a `LookAngles` value may carry:
/// `HALF_PI_FP - PITCH_EPSILON_FP`.
pub const PITCH_LIMIT_FP: i64 = 1_560_796;

/// Smallest eye-to-target distance the controller will produce (0.001 units).
pub const RADIUS_MIN_FP: i64 = 1_000;

/// Largest eye-to-target distance the controller will produce (1.0e6 units).
pub const RADIUS_MAX_FP: i64 = 1_000_000_000_000;

/// Magnitude bound on the arguments of [`mul_fp`]; keeps the 128-bit
/// intermediate product and the scaled result inside their machine ranges.
pub const MUL_ARG_MAX: i64 = 4_000_000_000_000_000_000;

/// Magnitude of a value, at the spec level.
pub open spec fn abs_i(x: int) -> int {
    if x < 0 {
        -x
    } else {
        x
    }
}

/// Fixed-point product: `a * b / SCALE`, rounded toward zero.
pub open spec fn mul_fp_spec(a: int, b: int) -> int {
    let m = (abs_i(a) * abs_i(b)) / (SCALE as int);
    if (a < 0) != (b < 0) {
        -m
    } else {
        m
    }
}

/// `x` forced into `[lo, hi]`.
pub open spec fn clamp_spec(x: int, lo: int, hi: int) -> int {
    if x < lo {
        lo
    } else if x > hi {
        hi
    } else {
        x
    }
}

/// An angle reduced into `(-TWO_PI_FP, TWO_PI_FP)` by discarding whole turns;
/// the sign of the input is kept, as a remainder, not a clamp.
pub open spec fn wrap_spec(a: int) -> int {
    if a >= 0 {
        a % (TWO_PI_FP as int)
    } else {
        -((-a) % (TWO_PI_FP as int))
    }
}

/// `r` is the integer square root of `n`, rounded down.
pub open spec fn is_sqrt_floor(n: int, r: int) -> bool {
    0 <= r && r * r <= n && n < (r + 1) * (r + 1)
}

/// The integer square root of `n`, rounded down.
pub open spec fn sqrt_floor(n: int) -> int {
    choose|r: int| is_sqrt_floor(n, r)
}

/// Any witness of [`is_sqrt_floor`] is the value of [`sqrt_floor`]: the
/// rounded-down square root is unique.
pub proof fn lemma_sqrt_floor_unique(n: int, r: int)
    requires
        is_sqrt_floor(n, r),
    ensures
        sqrt_floor(n) == r,
{
    assert(is_sqrt_floor(n, sqrt_floor(n)));
    let c = sqrt_floor(n);
    if c < r {
        assert((c + 1) * (c + 1) <= r * r) by (nonlinear_arith)
            requires
                0 <= c,
                c < r,
        ;
        assert(false);
    }
    if r < c {
        assert((r + 1) * (r + 1) <= c * c) by (nonlinear_arith)
            requires
                0 <= r,
                r < c,
        ;
        assert(false);
    }
}

/// Bounds on two factors bound their product of magnitudes.
pub proof fn lemma_abs_mul_le(x: int, y: int, bx: int, by: int)
    by (nonlinear_arith)
    requires
        abs_i(x) <= bx,
        abs_i(y) <= by,
    ensures
        0 <= abs_i(x) * abs_i(y) <= bx * by,
{
}

/// Fixed-point multiply. The bound on `|a| * |b|` is a machine limit: it keeps
/// the scaled result inside `i64`.
pub fn mul_fp(a: i64, b: i64) -> (r: i64)
    requires
        -MUL_ARG_MAX <= a <= MUL_ARG_MAX,
        -MUL_ARG_MAX <= b <= MUL_ARG_MAX,
        abs_i(a as int) * abs_i(b as int) <= 9_000_000_000_000_000_000_000_000,
    ensures
        r as int == mul_fp_spec(a as int, b as int),
        abs_i(r as int) * (SCALE as int) <= abs_i(a as int) * abs_i(b as int),
{
    let an: u64 = if a < 0 {
        (-a) as u64
    } else {
        a as u64
    };
    let bn: u64 = if b < 0 {
        (-b) as u64
    } else {
        b as u64
    };
    proof {
        assert((an as int) * (bn as int) == abs_i(a as int) * abs_i(b as int));
        assert((an as int) * (bn as int) <= 9_000_000_000_000_000_000_000_000);
    }
    let p: u128 = (an as u128) * (bn as u128);
    let q: u128 = p / 1_000_000;
    proof {
        lemma_div_is_ordered(p as int, 9_000_000_000_000_000_000_000_000, 1_000_000);
        assert((q as int) * (SCALE as int) <= p as int) by (nonlinear_arith)
            requires
                q as int == (p as int) / 1_000_000,
                p >= 0,
        ;
    }
    let m: i64 = q as i64;
    if (a < 0) != (b < 0) {
        -m
    } else {
        m
    }
}

/// `x` forced into `[lo, hi]`.
pub fn clamp_fp(x: i64, lo: i64, hi: i64) -> (r: i64)
    requires
        lo <= hi,
    ensures
        r as int == clamp_spec(x as int, lo as int, hi as int),
        lo <= r <= hi,
{
    if x < lo {
        lo
    } else if x > hi {
        hi
    } else {
        x
    }
}

/// Reduces an angle into `(-TWO_PI_FP, TWO_PI_FP)` by discarding whole turns.
/// Wrapping a full turn changes nothing modulo `TWO_PI_FP`.
pub fn wrap_angle(a: i64) -> (r: i64)
    requires
        -MUL_ARG_MAX <= a <= MUL_ARG_MAX,
    ensures
        r as int == wrap_spec(a as int),
        -TWO_PI_FP < r < TWO_PI_FP,
        abs_i(r as int) <= abs_i(a as int),
{
    if a >= 0 {
        let m: u64 = (a as u64) % 6_283_186;
        proof {
            if a < TWO_PI_FP {
                lemma_small_mod(a as nat, TWO_PI_FP as nat);
            }
        }
        m as i64
    } else {
        let m: u64 = ((-a) as u64) % 6_283_186;
        proof {
            if -a < TWO_PI_FP {
                lemma_small_mod((-a) as nat, TWO_PI_FP as nat);
            }
        }
        -(m as i64)
    }
}

/// Binary-search integer square root, rounded down. The bound on `n` is a
/// machine limit: it keeps the search range inside `u64`.
pub fn isqrt_fp(n: u128) -> (r: u64)
    requires
        n <= 100_000_000_000_000_000_000_000_000,
    ensures
        is_sqrt_floor(n as int, r as int),
        r as int == sqrt_floor(n as int),
        r <= 10_000_000_000_000,
{
    let mut lo: u64 = 0;
    let mut hi: u64 = 10_000_000_000_001;
    proof {
        assert((hi as int) * (hi as int) > 100_000_000_000_000_000_000_000_000) by (nonlinear_arith)
            requires
                hi == 10_000_000_000_001,
        ;
    }
    while lo + 1 < hi
        invariant
            lo < hi <= 10_000_000_000_001,
            (lo as int) * (lo as int) <= n as int,
            (n as int) < (hi as int) * (hi as int),
        decreases hi - lo,
    {
        let mid: u64 = lo + (hi - lo) / 2;
        proof {
            assert((mid as int) * (mid as int) <= (10_000_000_000_001 as int) * (
            10_000_000_000_001 as int)) by (nonlinear_arith)
                requires
                    0 <= mid <= 10_000_000_000_001,
            ;
        }
        let sq: u128 = (mid as u128) * (mid as u128);
        if sq <= n {
            lo = mid;
        } else {
            hi = mid;
        }
    }
    proof {
        lemma_sqrt_floor_unique(n as int, lo as int);
    }
    lo
}

/// `a` rescaled by `SCALE / d`, rounded toward zero: the division step of a
/// normalization or a pixels-to-lines conversion.
pub open spec fn div_scaled_spec(a: int, d: int) -> int {
    let m = (abs_i(a) * (SCALE as int)) / d;
    if a < 0 {
        -m
    } else {
        m
    }
}

/// Fixed-point division of `a` by the positive raw denominator `d`:
/// `a * SCALE / d`, rounded toward zero. The bound on `|a|` is a machine
/// limit: it keeps `|a| * SCALE` inside `u64`.
pub fn div_scaled(a: i64, d: u64) -> (r: i64)
    requires
        1 <= d,
        abs_i(a as int) <= 9_000_000_000_000,
    ensures
        r as int == div_scaled_spec(a as int, d as int),
        abs_i(a as int) <= d as int ==> abs_i(r as int) <= SCALE as int,
        SCALE as int <= d as int ==> abs_i(r as int) <= abs_i(a as int),
{
    let an: u64 = if a < 0 {
        (-a) as u64
    } else {
        a as u64
    };
    let p: u64 = an * 1_000_000;
    let q: u64 = p / d;
    proof {
        if an <= d {
            assert((an as int) * 1_000_000 <= (d as int) * 1_000_000);
            lemma_div_is_ordered((an as int) * 1_000_000, (d as int) * 1_000_000, d as int);
            assert(((d as int) * 1_000_000) / (d as int) == 1_000_000) by (nonlinear_arith)
                requires
                    1 <= d,
            ;
        }
        lemma_div_is_ordered(p as int, 9_000_000_000_000_000_000, d as int);
        assert(9_000_000_000_000_000_000int / (d as int) <= 9_000_000_000_000_000_000int) by (
        nonlinear_arith)
            requires
                1 <= d,
        ;
        if SCALE <= d {
            lemma_div_is_ordered_by_denominator((an as int) * 1_000_000, SCALE as int, d as int);
            lemma_div_multiples_vanish(an as int, SCALE as int);
        }
    }
    let m: i64 = q as i64;
    if a < 0 {
        -m
    } else {
        m
    }
}

} // verus!
