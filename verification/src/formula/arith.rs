use vstd::prelude::*;
use vstd::arithmetic::power::pow;

verus! {

/// The value of `x` clamped to the range of `i32`.
pub open spec fn clamp_i32(x: int) -> i32 {
    if x > i32::MAX {
        i32::MAX
    } else if x < i32::MIN {
        i32::MIN
    } else {
        x as i32
    }
}

pub open spec fn spec_saturating_add(a: i32, b: i32) -> i32 {
    clamp_i32(a + b)
}

pub open spec fn spec_saturating_sub(a: i32, b: i32) -> i32 {
    clamp_i32(a - b)
}

pub open spec fn spec_saturating_mul(a: i32, b: i32) -> i32 {
    clamp_i32(a * b)
}

/// Integer division rounding toward zero, as `i32::checked_div` computes it:
/// `None` on a zero divisor and on the one quotient that leaves the range.
pub open spec fn spec_checked_div(a: i32, b: i32) -> Option<i32> {
    if b == 0 {
        None
    } else {
        let q: int = if (a >= 0) == (b > 0) {
            if a >= 0 { a / b } else { (-a) / (-b) }
        } else if a < 0 {
            -((-a) / (b as int))
        } else {
            -((a as int) / (-b))
        };
        if q > i32::MAX || q < i32::MIN {
            None
        } else {
            Some(q as i32)
        }
    }
}

/// Saturating exponentiation as the formulas use it: a negative exponent
/// gives zero, any other gives the exact power clamped to `i32`.
pub open spec fn spec_saturating_pow(a: i32, exp: i32) -> i32 {
    if exp < 0 {
        0
    } else {
        clamp_i32(pow(a as int, exp as nat))
    }
}

pub fn saturating_add(a: i32, b: i32) -> (r: i32)
    ensures
        r == spec_saturating_add(a, b),
{
    let s: i64 = a as i64 + b as i64;
    if s > i32::MAX as i64 {
        i32::MAX
    } else if s < i32::MIN as i64 {
        i32::MIN
    } else {
        s as i32
    }
}

pub fn saturating_sub(a: i32, b: i32) -> (r: i32)
    ensures
        r == spec_saturating_sub(a, b),
{
    let s: i64 = a as i64 - b as i64;
    if s > i32::MAX as i64 {
        i32::MAX
    } else if s < i32::MIN as i64 {
        i32::MIN
    } else {
        s as i32
    }
}

pub fn saturating_mul(a: i32, b: i32) -> (r: i32)
    ensures
        r == spec_saturating_mul(a, b),
{
    assert(-0x4000_0000_0000_0000 <= (a as int) * (b as int) <= 0x4000_0000_0000_0000) by (nonlinear_arith)
        requires
            i32::MIN <= a <= i32::MAX,
            i32::MIN <= b <= i32::MAX,
    ;
    let p: i64 = a as i64 * b as i64;
    if p > i32::MAX as i64 {
        i32::MAX
    } else if p < i32::MIN as i64 {
        i32::MIN
    } else {
        p as i32
    }
}

pub fn checked_div(a: i32, b: i32) -> (r: Option<i32>)
    ensures
        r == spec_checked_div(a, b),
{
    a.checked_div(b)
}

/// `i32::saturating_pow` of std, which computes `base` to the power `exp`
/// and saturates at the bounds of `i32`. The contract restates exactly that.
#[verifier::external_body]
fn std_i32_saturating_pow(base: i32, exp: u32) -> (r: i32)
    ensures
        r == clamp_i32(pow(base as int, exp as nat)),
{
    base.saturating_pow(exp)
}

pub fn saturating_pow(a: i32, exp: i32) -> (r: i32)
    ensures
        r == spec_saturating_pow(a, exp),
{
    if exp < 0 {
        0
    } else {
        std_i32_saturating_pow(a, exp as u32)
    }
}

} // verus!
