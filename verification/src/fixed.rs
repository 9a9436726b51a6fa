//! Fixed-point scalars with saturating arithmetic.
//!
//! A [`Fixed`] counts millionths of a unit in an `i64`. Sums and products
//! that leave the `i64` range are clamped to its nearest end, and quotients
//! are rounded toward zero, so every operation is total and deterministic.

use vstd::prelude::*;

verus! {

/// Raw units per whole unit.
pub const SCALE: i64 = 1_000_000;

/// Magnitude of `x`.
pub open spec fn magnitude(x: int) -> int {
    if x < 0 {
        -x
    } else {
        x
    }
}

/// The nearest value to `x` that an `i64` holds.
pub open spec fn saturate(x: int) -> int {
    if x < i64::MIN {
        i64::MIN as int
    } else if x > i64::MAX {
        i64::MAX as int
    } else {
        x
    }
}

/// Quotient of `n` by `d` rounded toward zero, for `d != 0`.
pub open spec fn trunc_div(n: int, d: int) -> int {
    if (n >= 0) == (d > 0) {
        magnitude(n) / magnitude(d)
    } else {
        -(magnitude(n) / magnitude(d))
    }
}

/// A scalar in millionths of a unit.
#[derive(Clone, Copy, PartialEq, Eq, Structural, Debug)]
pub struct Fixed {
    pub raw: i64,
}

impl View for Fixed {
    type V = int;

    open spec fn view(&self) -> int {
        self.raw as int
    }
}

/// The scalar nearest to `x` raw units.
pub open spec fn saturated(x: int) -> Fixed {
    Fixed { raw: saturate(x) as i64 }
}

impl Fixed {
    /// Sum of two scalars, clamped into range.
    pub open spec fn plus(self, other: Fixed) -> Fixed {
        saturated(self@ + other@)
    }

    /// Difference of two scalars, clamped into range.
    pub open spec fn minus(self, other: Fixed) -> Fixed {
        saturated(self@ - other@)
    }

    /// Negation, clamped into range.
    pub open spec fn negated(self) -> Fixed {
        saturated(-self@)
    }

    /// `self * num / den`, rounded toward zero and clamped into range.
    pub open spec fn times_over(self, num: Fixed, den: Fixed) -> Fixed {
        saturated(trunc_div(self@ * num@, den@))
    }

    /// Fixed-point product, rounded toward zero and clamped into range.
    pub open spec fn times(self, other: Fixed) -> Fixed {
        saturated(trunc_div(self@ * other@, SCALE as int))
    }

    /// Fixed-point quotient, rounded toward zero and clamped into range.
    pub open spec fn over(self, other: Fixed) -> Fixed {
        saturated(trunc_div(self@ * SCALE, other@))
    }

    /// `self` limited to the interval from `lo` to `hi`: `lo` below it, else
    /// `hi` above it, else `self`.
    pub open spec fn clamped(self, lo: Fixed, hi: Fixed) -> Fixed {
        if self@ < lo@ {
            lo
        } else if self@ > hi@ {
            hi
        } else {
            self
        }
    }
}

/// Between ends in order, the clamped value lies within the interval and
/// is the value itself wherever that does.
pub proof fn lemma_clamped_in_interval(x: Fixed, lo: Fixed, hi: Fixed)
    requires
        lo@ <= hi@,
    ensures
        lo@ <= x.clamped(lo, hi)@ <= hi@,
        lo@ <= x@ <= hi@ ==> x.clamped(lo, hi) == x,
{
}

fn narrow(x: i128) -> (r: i64)
    ensures
        r as int == saturate(x as int),
{
    if x < i64::MIN as i128 {
        i64::MIN
    } else if x > i64::MAX as i128 {
        i64::MAX
    } else {
        x as i64
    }
}

impl Fixed {
    /// The scalar zero.
    pub fn zero() -> (r: Fixed)
        ensures
            r@ == 0,
    {
        Fixed { raw: 0 }
    }

    /// The whole number `whole` as a scalar, exactly.
    pub fn from_int(whole: i32) -> (r: Fixed)
        ensures
            r@ == whole * SCALE,
    {
        Fixed { raw: (whole as i64) * SCALE }
    }

    /// Sum, clamped into range.
    pub fn saturating_add(self, other: Fixed) -> (r: Fixed)
        ensures
            r == self.plus(other),
    {
        Fixed { raw: narrow(self.raw as i128 + other.raw as i128) }
    }

    /// Difference, clamped into range.
    pub fn saturating_sub(self, other: Fixed) -> (r: Fixed)
        ensures
            r == self.minus(other),
    {
        Fixed { raw: narrow(self.raw as i128 - other.raw as i128) }
    }

    /// Negation, clamped into range: the least scalar negates to the
    /// greatest.
    pub fn saturating_neg(self) -> (r: Fixed)
        ensures
            r == self.negated(),
    {
        Fixed { raw: narrow(-(self.raw as i128)) }
    }

    /// `self * num / den` with the product taken exactly and one rounding
    /// toward zero, clamped into range.
    pub fn mul_div(self, num: Fixed, den: Fixed) -> (r: Fixed)
        requires
            den@ != 0,
        ensures
            r == self.times_over(num, den),
    {
        let a: i128 = self.raw as i128;
        let b: i128 = num.raw as i128;
        let d: i128 = den.raw as i128;
        assert(-0x4000_0000_0000_0000_0000_0000_0000_0000 <= a * b
            <= 0x4000_0000_0000_0000_0000_0000_0000_0000) by (nonlinear_arith)
            requires
                -0x8000_0000_0000_0000 <= a <= 0x8000_0000_0000_0000,
                -0x8000_0000_0000_0000 <= b <= 0x8000_0000_0000_0000,
        ;
        let p: i128 = a * b;
        let p_mag: u128 = if p < 0 {
            (-p) as u128
        } else {
            p as u128
        };
        let d_mag: u128 = if d < 0 {
            (-d) as u128
        } else {
            d as u128
        };
        let q_mag: u128 = p_mag / d_mag;
        let q: i128 = if (p >= 0) == (d > 0) {
            q_mag as i128
        } else {
            -(q_mag as i128)
        };
        Fixed { raw: narrow(q) }
    }

    /// Fixed-point product, rounded toward zero and clamped into range.
    pub fn saturating_mul(self, other: Fixed) -> (r: Fixed)
        ensures
            r == self.times(other),
    {
        self.mul_div(other, Fixed { raw: SCALE })
    }

    /// Fixed-point quotient, rounded toward zero and clamped into range.
    pub fn saturating_div(self, other: Fixed) -> (r: Fixed)
        requires
            other@ != 0,
        ensures
            r == self.over(other),
    {
        self.mul_div(Fixed { raw: SCALE }, other)
    }

    /// `self` limited to the interval from `lo` to `hi`.
    pub fn clamp(self, lo: Fixed, hi: Fixed) -> (r: Fixed)
        ensures
            r == self.clamped(lo, hi),
    {
        if self.raw < lo.raw {
            lo
        } else if self.raw > hi.raw {
            hi
        } else {
            self
        }
    }
}

} // verus!
