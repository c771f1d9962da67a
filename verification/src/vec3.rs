//! Fixed-point 2-D and 3-D vectors in micro-units.
//!
//! All operations carry exact contracts: each result equals a spec-level
//! mirror of the same integer computation. Magnitude preconditions are
//! machine limits that keep products and sums inside `i64`/`u128`.

use crate::fixed::SCALE;
use crate::fixed::abs_i;
use crate::fixed::div_scaled;
use crate::fixed::div_scaled_spec;
use crate::fixed::is_sqrt_floor;
use crate::fixed::isqrt_fp;
use crate::fixed::lemma_abs_mul_le;
use crate::fixed::mul_fp;
use crate::fixed::mul_fp_spec;
use crate::fixed::sqrt_floor;
use vstd::prelude::*;

verus! {

/// A 2-D fixed-point vector: pointer deltas and per-axis sensitivities.
#[derive(Clone, Copy, Debug, PartialEq, Eq, Structural)]
pub struct Vec2 {
    pub x: i64,
    pub y: i64,
}

/// A 3-D fixed-point vector in micro-units.
#[derive(Clone, Copy, Debug, PartialEq, Eq, Structural)]
pub struct Vec3 {
    pub x: i64,
    pub y: i64,
    pub z: i64,
}

/// Componentwise sum.
pub open spec fn add_spec(a: Vec3, b: Vec3) -> Vec3 {
    Vec3 {
        x: (a.x as int + b.x as int) as i64,
        y: (a.y as int + b.y as int) as i64,
        z: (a.z as int + b.z as int) as i64,
    }
}

/// Componentwise difference.
pub open spec fn sub_spec(a: Vec3, b: Vec3) -> Vec3 {
    Vec3 {
        x: (a.x as int - b.x as int) as i64,
        y: (a.y as int - b.y as int) as i64,
        z: (a.z as int - b.z as int) as i64,
    }
}

/// Each component multiplied by the micro-unit scalar `s`.
pub open spec fn scale_spec(v: Vec3, s: int) -> Vec3 {
    Vec3 {
        x: mul_fp_spec(v.x as int, s) as i64,
        y: mul_fp_spec(v.y as int, s) as i64,
        z: mul_fp_spec(v.z as int, s) as i64,
    }
}

/// Fixed-point dot product, in micro-units.
pub open spec fn dot_spec(a: Vec3, b: Vec3) -> int {
    mul_fp_spec(a.x as int, b.x as int) + mul_fp_spec(a.y as int, b.y as int) + mul_fp_spec(
        a.z as int,
        b.z as int,
    )
}

/// Fixed-point cross product, in micro-units.
pub open spec fn cross_spec(a: Vec3, b: Vec3) -> Vec3 {
    Vec3 {
        x: (mul_fp_spec(a.y as int, b.z as int) - mul_fp_spec(a.z as int, b.y as int)) as i64,
        y: (mul_fp_spec(a.z as int, b.x as int) - mul_fp_spec(a.x as int, b.z as int)) as i64,
        z: (mul_fp_spec(a.x as int, b.y as int) - mul_fp_spec(a.y as int, b.x as int)) as i64,
    }
}

/// Squared euclidean norm of the raw components (not rescaled).
pub open spec fn norm_sq_spec(v: Vec3) -> int {
    (v.x as int) * (v.x as int) + (v.y as int) * (v.y as int) + (v.z as int) * (v.z as int)
}

/// Euclidean length, rounded down to an integer number of micro-units.
pub open spec fn length_spec(v: Vec3) -> int {
    sqrt_floor(norm_sq_spec(v))
}

/// The unit vector parallel to `v` (components rescaled by `SCALE / length`),
/// defined only for non-zero `v`.
pub open spec fn normalize_spec(v: Vec3) -> Vec3 {
    Vec3 {
        x: div_scaled_spec(v.x as int, length_spec(v)) as i64,
        y: div_scaled_spec(v.y as int, length_spec(v)) as i64,
        z: div_scaled_spec(v.z as int, length_spec(v)) as i64,
    }
}

/// A non-zero value has a square of at least one.
proof fn lemma_square_pos(x: int)
    by (nonlinear_arith)
    requires
        x != 0,
    ensures
        x * x >= 1,
{
}

/// The square of a value bounded by `b` is at most `b * b`.
proof fn lemma_square_bound(x: int, b: int)
    by (nonlinear_arith)
    requires
        0 <= b,
        -b <= x <= b,
    ensures
        0 <= x * x <= b * b,
{
}

/// No component of a vector exceeds the vector's rounded-down length: from
/// `x * x <= n` and `n < (len + 1) * (len + 1)` follows `|x| <= len`.
proof fn lemma_component_le_length(x: int, n: int, len: int)
    by (nonlinear_arith)
    requires
        0 <= len,
        x * x <= n,
        n < (len + 1) * (len + 1),
    ensures
        abs_i(x) <= len,
{
}

impl Vec3 {
    /// All components zero.
    pub open spec fn is_zero_spec(self) -> bool {
        self.x == 0 && self.y == 0 && self.z == 0
    }

    /// Every component within `b` of zero.
    pub open spec fn in_box(self, b: int) -> bool {
        abs_i(self.x as int) <= b && abs_i(self.y as int) <= b && abs_i(self.z as int) <= b
    }

    /// The zero vector.
    pub fn zero() -> (r: Vec3)
        ensures
            r.is_zero_spec(),
    {
        Vec3 { x: 0, y: 0, z: 0 }
    }

    /// True exactly when all components are zero.
    pub fn is_zero(&self) -> (r: bool)
        ensures
            r == self.is_zero_spec(),
    {
        self.x == 0 && self.y == 0 && self.z == 0
    }

    /// Componentwise sum.
    pub fn add(&self, other: &Vec3) -> (r: Vec3)
        requires
            self.in_box(1_000_000_000_000_000),
            other.in_box(1_000_000_000_000_000),
        ensures
            r == add_spec(*self, *other),
            r.in_box(2_000_000_000_000_000),
    {
        Vec3 { x: self.x + other.x, y: self.y + other.y, z: self.z + other.z }
    }

    /// Componentwise difference.
    pub fn sub(&self, other: &Vec3) -> (r: Vec3)
        requires
            self.in_box(1_000_000_000_000_000),
            other.in_box(1_000_000_000_000_000),
        ensures
            r == sub_spec(*self, *other),
            r.in_box(2_000_000_000_000_000),
    {
        Vec3 { x: self.x - other.x, y: self.y - other.y, z: self.z - other.z }
    }

    /// Each component multiplied by the micro-unit scalar `s`. The bounds are
    /// machine limits; they admit a unit-length direction scaled by any
    /// in-range radius.
    pub fn scale(&self, s: i64) -> (r: Vec3)
        requires
            self.in_box(2_000_000_000),
            abs_i(s as int) <= 10_000_000_000_000,
        ensures
            r == scale_spec(*self, s as int),
            abs_i(r.x as int) * (SCALE as int) <= abs_i(self.x as int) * abs_i(s as int),
            abs_i(r.y as int) * (SCALE as int) <= abs_i(self.y as int) * abs_i(s as int),
            abs_i(r.z as int) * (SCALE as int) <= abs_i(self.z as int) * abs_i(s as int),
    {
        proof {
            lemma_abs_mul_le(self.x as int, s as int, 2_000_000_000, 10_000_000_000_000);
            lemma_abs_mul_le(self.y as int, s as int, 2_000_000_000, 10_000_000_000_000);
            lemma_abs_mul_le(self.z as int, s as int, 2_000_000_000, 10_000_000_000_000);
        }
        Vec3 { x: mul_fp(self.x, s), y: mul_fp(self.y, s), z: mul_fp(self.z, s) }
    }

    /// Fixed-point dot product. The component bound is a machine limit; it
    /// admits every unit-length vector with slack.
    pub fn dot(&self, other: &Vec3) -> (r: i64)
        requires
            self.in_box(2_000_000_000),
            other.in_box(2_000_000_000),
        ensures
            r as int == dot_spec(*self, *other),
            self.in_box(SCALE as int) && other.in_box(SCALE as int) ==> abs_i(r as int)
                <= 3_000_000,
    {
        proof {
            lemma_abs_mul_le(self.x as int, other.x as int, 2_000_000_000, 2_000_000_000);
            lemma_abs_mul_le(self.y as int, other.y as int, 2_000_000_000, 2_000_000_000);
            lemma_abs_mul_le(self.z as int, other.z as int, 2_000_000_000, 2_000_000_000);
            if self.in_box(SCALE as int) && other.in_box(SCALE as int) {
                lemma_abs_mul_le(self.x as int, other.x as int, 1_000_000, 1_000_000);
                lemma_abs_mul_le(self.y as int, other.y as int, 1_000_000, 1_000_000);
                lemma_abs_mul_le(self.z as int, other.z as int, 1_000_000, 1_000_000);
            }
        }
        mul_fp(self.x, other.x) + mul_fp(self.y, other.y) + mul_fp(self.z, other.z)
    }

    /// Fixed-point cross product. The component bound is a machine limit; it
    /// admits every unit-length vector with slack.
    pub fn cross(&self, other: &Vec3) -> (r: Vec3)
        requires
            self.in_box(2_000_000_000),
            other.in_box(2_000_000_000),
        ensures
            r == cross_spec(*self, *other),
            r.in_box(8_000_000_000_000),
            self.in_box(SCALE as int) && other.in_box(SCALE as int) ==> r.in_box(2_000_000),
    {
        proof {
            if self.in_box(SCALE as int) && other.in_box(SCALE as int) {
                lemma_abs_mul_le(self.x as int, other.y as int, 1_000_000, 1_000_000);
                lemma_abs_mul_le(self.x as int, other.z as int, 1_000_000, 1_000_000);
                lemma_abs_mul_le(self.y as int, other.x as int, 1_000_000, 1_000_000);
                lemma_abs_mul_le(self.y as int, other.z as int, 1_000_000, 1_000_000);
                lemma_abs_mul_le(self.z as int, other.x as int, 1_000_000, 1_000_000);
                lemma_abs_mul_le(self.z as int, other.y as int, 1_000_000, 1_000_000);
            }
            lemma_abs_mul_le(self.x as int, other.y as int, 2_000_000_000, 2_000_000_000);
            lemma_abs_mul_le(self.x as int, other.z as int, 2_000_000_000, 2_000_000_000);
            lemma_abs_mul_le(self.y as int, other.x as int, 2_000_000_000, 2_000_000_000);
            lemma_abs_mul_le(self.y as int, other.z as int, 2_000_000_000, 2_000_000_000);
            lemma_abs_mul_le(self.z as int, other.x as int, 2_000_000_000, 2_000_000_000);
            lemma_abs_mul_le(self.z as int, other.y as int, 2_000_000_000, 2_000_000_000);
        }
        Vec3 {
            x: mul_fp(self.y, other.z) - mul_fp(self.z, other.y),
            y: mul_fp(self.z, other.x) - mul_fp(self.x, other.z),
            z: mul_fp(self.x, other.y) - mul_fp(self.y, other.x),
        }
    }

    /// Euclidean length, rounded down, in micro-units. The component bound is
    /// a machine limit: the squared norm must fit the square-root routine.
    pub fn length(&self) -> (r: i64)
        requires
            self.in_box(5_000_000_000_000),
        ensures
            r as int == length_spec(*self),
            is_sqrt_floor(norm_sq_spec(*self), r as int),
            0 <= r <= 10_000_000_000_000,
            r == 0 <==> self.is_zero_spec(),
    {
        proof {
            lemma_square_bound(self.x as int, 5_000_000_000_000);
            lemma_square_bound(self.y as int, 5_000_000_000_000);
            lemma_square_bound(self.z as int, 5_000_000_000_000);
        }
        let xx: u128 = ((self.x as i128) * (self.x as i128)) as u128;
        let yy: u128 = ((self.y as i128) * (self.y as i128)) as u128;
        let zz: u128 = ((self.z as i128) * (self.z as i128)) as u128;
        let n: u128 = xx + yy + zz;
        let r = isqrt_fp(n);
        proof {
            if self.is_zero_spec() {
                assert(is_sqrt_floor(0, r as int));
                if r != 0 {
                    lemma_square_pos(r as int);
                }
            } else {
                if self.x != 0 {
                    lemma_square_pos(self.x as int);
                }
                if self.y != 0 {
                    lemma_square_pos(self.y as int);
                }
                if self.z != 0 {
                    lemma_square_pos(self.z as int);
                }
                assert(n as int >= 1);
                if r == 0 {
                    assert((n as int) < (0 + 1) * (0 + 1));
                }
            }
        }
        r as i64
    }

    /// The unit vector parallel to `self`, or `None` for the zero vector
    /// (whose direction is undefined).
    pub fn normalize(&self) -> (r: Option<Vec3>)
        requires
            self.in_box(5_000_000_000_000),
        ensures
            r is None <==> self.is_zero_spec(),
            !self.is_zero_spec() ==> r == Some(normalize_spec(*self)) && normalize_spec(
                *self,
            ).in_box(SCALE as int),
    {
        let len = self.length();
        if len == 0 {
            None
        } else {
            proof {
                lemma_square_bound(self.x as int, 5_000_000_000_000);
                lemma_square_bound(self.y as int, 5_000_000_000_000);
                lemma_square_bound(self.z as int, 5_000_000_000_000);
                lemma_component_le_length(self.x as int, norm_sq_spec(*self), len as int);
                lemma_component_le_length(self.y as int, norm_sq_spec(*self), len as int);
                lemma_component_le_length(self.z as int, norm_sq_spec(*self), len as int);
            }
            Some(
                Vec3 {
                    x: div_scaled(self.x, len as u64),
                    y: div_scaled(self.y, len as u64),
                    z: div_scaled(self.z, len as u64),
                },
            )
        }
    }
}

} // verus!
