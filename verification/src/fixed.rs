//! Exact fixed-point numbers for game values.
//!
//! A [`Fixed`] holds an integer count of thousandths of a game unit. All
//! arithmetic is total: sums saturate at the representable range, and
//! products are computed exactly in a wider type before one final
//! truncation and saturation, so the combination rules built on top of
//! this type are order-independent wherever the mathematical sums are.

use vstd::prelude::*;

verus! {

/// Raw steps per game unit.
pub const FIXED_SCALE: i64 = 1000;

/// Saturate an unbounded integer into the `i64` range.
pub open spec fn spec_sat64(v: int) -> int {
    if v > i64::MAX {
        i64::MAX as int
    } else if v < i64::MIN {
        i64::MIN as int
    } else {
        v
    }
}

/// Division truncating toward zero, as Rust's `/` on machine integers.
pub open spec fn spec_div_trunc(x: int, d: int) -> int
    recommends
        d > 0,
{
    if x >= 0 {
        x / d
    } else {
        -((-x) / d)
    }
}

/// Clamp `v` into `[lo, hi]`.
pub open spec fn spec_clamp(v: int, lo: int, hi: int) -> int
    recommends
        lo <= hi,
{
    if v < lo {
        lo
    } else if v > hi {
        hi
    } else {
        v
    }
}

/// A fixed-point number counting thousandths of a game unit.
#[derive(Clone, Copy, Debug, PartialEq, Eq, Structural)]
pub struct Fixed {
    pub raw: i64,
}

impl Fixed {
    /// The value in thousandths of a unit.
    pub open spec fn as_milli(self) -> int {
        self.raw as int
    }

    /// Build a value from a count of thousandths of a unit.
    pub fn from_milli(raw: i64) -> (r: Fixed)
        ensures
            r.as_milli() == raw,
    {
        Fixed { raw }
    }

    /// Build a value from whole game units, saturating at the range ends.
    pub fn from_int(v: i64) -> (r: Fixed)
        ensures
            r.as_milli() == spec_sat64(v * FIXED_SCALE),
    {
        match v.checked_mul(FIXED_SCALE) {
            Some(raw) => Fixed { raw },
            None => {
                if v > 0 {
                    Fixed { raw: i64::MAX }
                } else {
                    Fixed { raw: i64::MIN }
                }
            },
        }
    }

    /// The value zero.
    pub fn zero() -> (r: Fixed)
        ensures
            r.as_milli() == 0,
    {
        Fixed { raw: 0 }
    }

    /// The greatest representable value, standing in for plus infinity.
    pub fn upper_limit() -> (r: Fixed)
        ensures
            r.as_milli() == i64::MAX,
    {
        Fixed { raw: i64::MAX }
    }

    /// The least representable value, standing in for minus infinity.
    pub fn lower_limit() -> (r: Fixed)
        ensures
            r.as_milli() == i64::MIN,
    {
        Fixed { raw: i64::MIN }
    }

    /// Saturating addition.
    pub fn add(self, other: Fixed) -> (r: Fixed)
        ensures
            r.as_milli() == spec_sat64(self.as_milli() + other.as_milli()),
    {
        match self.raw.checked_add(other.raw) {
            Some(raw) => Fixed { raw },
            None => {
                if self.raw > 0 {
                    Fixed { raw: i64::MAX }
                } else {
                    Fixed { raw: i64::MIN }
                }
            },
        }
    }

    /// Saturating subtraction.
    pub fn sub(self, other: Fixed) -> (r: Fixed)
        ensures
            r.as_milli() == spec_sat64(self.as_milli() - other.as_milli()),
    {
        match self.raw.checked_sub(other.raw) {
            Some(raw) => Fixed { raw },
            None => {
                if self.raw >= 0 {
                    Fixed { raw: i64::MAX }
                } else {
                    Fixed { raw: i64::MIN }
                }
            },
        }
    }

    /// Exact product of the two values, truncated toward zero to the nearest
    /// thousandth and saturated into the representable range.
    pub fn mul(self, other: Fixed) -> (r: Fixed)
        ensures
            r.as_milli() == spec_sat64(
                spec_div_trunc(self.as_milli() * other.as_milli(), FIXED_SCALE as int),
            ),
    {
        proof {
            lemma_div_trunc_in_range(self.raw as int, other.raw as int);
        }
        let wide: i128 = (self.raw as i128) * (other.raw as i128);
        let q: i128 = wide / (FIXED_SCALE as i128);
        if q > i64::MAX as i128 {
            Fixed { raw: i64::MAX }
        } else if q < i64::MIN as i128 {
            Fixed { raw: i64::MIN }
        } else {
            Fixed { raw: q as i64 }
        }
    }

    /// Clamp into `[lo, hi]`.
    pub fn clamp(self, lo: Fixed, hi: Fixed) -> (r: Fixed)
        requires
            lo.as_milli() <= hi.as_milli(),
        ensures
            r.as_milli() == spec_clamp(self.as_milli(), lo.as_milli(), hi.as_milli()),
    {
        if self.raw < lo.raw {
            lo
        } else if self.raw > hi.raw {
            hi
        } else {
            self
        }
    }

    /// The whole-unit part, truncated toward zero.
    pub fn to_int(self) -> (r: i64)
        ensures
            r == spec_div_trunc(self.as_milli(), FIXED_SCALE as int),
    {
        self.raw / FIXED_SCALE
    }

    /// The whole-unit part, truncated toward zero and saturated into the
    /// `u32` range, as a lossy cast to an unsigned count reads it.
    pub fn to_u32(self) -> (r: u32)
        ensures
            r == spec_clamp(
                spec_div_trunc(self.as_milli(), FIXED_SCALE as int),
                0,
                u32::MAX as int,
            ),
    {
        let units = self.raw / FIXED_SCALE;
        if units < 0 {
            0
        } else if units > u32::MAX as i64 {
            u32::MAX
        } else {
            units as u32
        }
    }

}

/// The truncated quotient of a product of two `i64` values by the scale
/// stays within `i128`, and `/` on the wide product matches
/// `spec_div_trunc`.
proof fn lemma_div_trunc_in_range(a: int, b: int)
    requires
        i64::MIN <= a <= i64::MAX,
        i64::MIN <= b <= i64::MAX,
    ensures
        i128::MIN <= a * b <= i128::MAX,
{
    assert(i64::MIN <= a <= i64::MAX && i64::MIN <= b <= i64::MAX ==> a * b <= i128::MAX && a * b
        >= i128::MIN) by (nonlinear_arith);
}

} // verus!
