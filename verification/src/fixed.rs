//! A fixed-point numeric kind for machines without floating point.

use vstd::prelude::*;
use crate::scalar::{Scalar, ZeroLaws};

verus! {

/// How many raw units make one.
pub const SCALE: i64 = 65536;

/// A signed fixed-point number with sixteen fractional bits: it stands for
/// `raw / 65536`. Arithmetic saturates at the ends of the range and
/// rounds towards zero.
#[derive(Clone, Copy, Debug, PartialEq, Eq, Structural)]
pub struct Fixed {
    pub raw: i64,
}

/// `v` brought into the range of `i64`: the nearest end where it lies outside.
pub open spec fn saturated(v: int) -> i64 {
    if v < i64::MIN as int {
        i64::MIN
    } else if v > i64::MAX as int {
        i64::MAX
    } else {
        v as i64
    }
}

/// The size of `v` without its sign.
pub open spec fn magnitude(v: int) -> int {
    if v < 0 {
        -v
    } else {
        v
    }
}

/// `a / b` rounded towards zero.
pub open spec fn quotient(a: int, b: int) -> int
    recommends
        b != 0,
{
    if (a >= 0) == (b > 0) {
        magnitude(a) / magnitude(b)
    } else {
        -(magnitude(a) / magnitude(b))
    }
}

/// What a division by zero gives: the end of the range on the dividend's
/// side, and zero for zero.
pub open spec fn quotient_by_zero(a: int) -> i64 {
    if a > 0 {
        i64::MAX
    } else if a < 0 {
        i64::MIN
    } else {
        0i64
    }
}

fn saturate(v: i128) -> (r: i64)
    ensures
        r == saturated(v as int),
{
    if v < i64::MIN as i128 {
        i64::MIN
    } else if v > i64::MAX as i128 {
        i64::MAX
    } else {
        v as i64
    }
}

fn divide(a: i128, b: i128) -> (q: i128)
    requires
        b != 0,
        i128::MIN < a,
        i128::MIN < b,
    ensures
        q == quotient(a as int, b as int),
{
    let ma: u128 = if a < 0 { (-a) as u128 } else { a as u128 };
    let mb: u128 = if b < 0 { (-b) as u128 } else { b as u128 };
    let m: u128 = ma / mb;
    assert(m <= ma) by (nonlinear_arith)
        requires
            m == ma / mb,
            mb >= 1,
    ;
    if (a >= 0) == (b > 0) {
        m as i128
    } else {
        -(m as i128)
    }
}

impl Fixed {
    /// The whole number `v`.
    pub fn from_int(v: i32) -> (r: Fixed)
        ensures
            r.raw == v * SCALE,
    {
        Fixed { raw: (v as i64) * SCALE }
    }
}

impl Scalar for Fixed {
    open spec fn zero_spec() -> Self {
        Fixed { raw: 0 }
    }

    open spec fn plus_spec(self, rhs: Self) -> Self {
        Fixed { raw: saturated(self.raw + rhs.raw) }
    }

    open spec fn minus_spec(self, rhs: Self) -> Self {
        Fixed { raw: saturated(self.raw - rhs.raw) }
    }

    open spec fn times_spec(self, rhs: Self) -> Self {
        Fixed { raw: saturated(quotient(self.raw * rhs.raw, SCALE as int)) }
    }

    open spec fn divided_by_spec(self, rhs: Self) -> Self {
        if rhs.raw == 0 {
            Fixed { raw: quotient_by_zero(self.raw as int) }
        } else {
            Fixed { raw: saturated(quotient(self.raw * SCALE, rhs.raw as int)) }
        }
    }

    open spec fn negated_spec(self) -> Self {
        Fixed { raw: saturated(-self.raw) }
    }

    open spec fn less_than_spec(self, rhs: Self) -> bool {
        self.raw < rhs.raw
    }

    fn zero() -> (r: Self) {
        Fixed { raw: 0 }
    }

    fn plus(self, rhs: Self) -> (r: Self) {
        Fixed { raw: saturate(self.raw as i128 + rhs.raw as i128) }
    }

    fn minus(self, rhs: Self) -> (r: Self) {
        Fixed { raw: saturate(self.raw as i128 - rhs.raw as i128) }
    }

    fn times(self, rhs: Self) -> (r: Self) {
        let a: i128 = self.raw as i128;
        let b: i128 = rhs.raw as i128;
        assert(-0x4000_0000_0000_0000_0000_0000_0000_0000 <= a * b
            <= 0x4000_0000_0000_0000_0000_0000_0000_0000) by (nonlinear_arith)
            requires
                -0x8000_0000_0000_0000 <= a <= 0x8000_0000_0000_0000,
                -0x8000_0000_0000_0000 <= b <= 0x8000_0000_0000_0000,
        ;
        Fixed { raw: saturate(divide(a * b, 65536)) }
    }

    fn divided_by(self, rhs: Self) -> (r: Self) {
        if rhs.raw == 0 {
            if self.raw > 0 {
                Fixed { raw: i64::MAX }
            } else if self.raw < 0 {
                Fixed { raw: i64::MIN }
            } else {
                Fixed { raw: 0 }
            }
        } else {
            let a: i128 = self.raw as i128;
            Fixed { raw: saturate(divide(a * 65536, rhs.raw as i128)) }
        }
    }

    fn negated(self) -> (r: Self) {
        Fixed { raw: saturate(-(self.raw as i128)) }
    }

    fn less_than(self, rhs: Self) -> (r: bool) {
        self.raw < rhs.raw
    }
}

impl ZeroLaws for Fixed {
    proof fn minus_self(x: Self) {
    }

    proof fn plus_zero(x: Self) {
    }

    proof fn times_zero(x: Self) {
    }

    proof fn zero_divided(x: Self) {
    }

    proof fn negated_zero() {
    }
}

} // verus!
