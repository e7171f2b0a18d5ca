//! Saturating and clamped arithmetic on the machine integers of the protocol.

use vstd::prelude::*;

verus! {

/// `x`, moved to the nearest end of the `i64` range if it lies outside it.
pub open spec fn sat_i64(x: int) -> int {
    if x < i64::MIN {
        i64::MIN as int
    } else if x > i64::MAX {
        i64::MAX as int
    } else {
        x
    }
}

/// `x`, held at `u64::MAX` if it lies above it.
pub open spec fn sat_u64(x: int) -> int {
    if x > u64::MAX {
        u64::MAX as int
    } else {
        x
    }
}

/// `x`, held at `u16::MAX` if it lies above it.
pub open spec fn sat_u16(x: int) -> int {
    if x > u16::MAX {
        u16::MAX as int
    } else {
        x
    }
}

/// The larger of two integers.
pub open spec fn max_int(a: int, b: int) -> int {
    if a >= b {
        a
    } else {
        b
    }
}

/// The smaller of two integers.
pub open spec fn min_int(a: int, b: int) -> int {
    if a <= b {
        a
    } else {
        b
    }
}

/// `x`, moved to the nearest end of `low ..= high` if it lies outside it.
pub open spec fn clamp_int(x: int, low: int, high: int) -> int {
    if x < low {
        low
    } else if x > high {
        high
    } else {
        x
    }
}

/// The quotient of `a` by a positive `b`, rounded toward zero.
pub open spec fn trunc_div(a: int, b: int) -> int {
    if a >= 0 {
        a / b
    } else {
        -((-a) / b)
    }
}

/// The absolute value of `x`.
pub open spec fn abs_int(x: int) -> int {
    if x < 0 {
        -x
    } else {
        x
    }
}

pub fn sat_add_i64(a: i64, b: i64) -> (r: i64)
    ensures
        r == sat_i64(a + b),
{
    let sum: i128 = a as i128 + b as i128;
    if sum < i64::MIN as i128 {
        i64::MIN
    } else if sum > i64::MAX as i128 {
        i64::MAX
    } else {
        sum as i64
    }
}

pub fn sat_sub_i64(a: i64, b: i64) -> (r: i64)
    ensures
        r == sat_i64(a - b),
{
    let difference: i128 = a as i128 - b as i128;
    if difference < i64::MIN as i128 {
        i64::MIN
    } else if difference > i64::MAX as i128 {
        i64::MAX
    } else {
        difference as i64
    }
}

pub proof fn lemma_product_fits_i128(a: i64, b: i64)
    ensures
        i128::MIN <= a * b <= i128::MAX,
{
    assert(-0x4000_0000_0000_0000_0000_0000_0000_0000 <= a * b
        <= 0x4000_0000_0000_0000_0000_0000_0000_0000) by (nonlinear_arith)
        requires
            -0x8000_0000_0000_0000 <= a < 0x8000_0000_0000_0000,
            -0x8000_0000_0000_0000 <= b < 0x8000_0000_0000_0000,
    ;
}

pub fn sat_mul_i64(a: i64, b: i64) -> (r: i64)
    ensures
        r == sat_i64(a * b),
{
    proof {
        lemma_product_fits_i128(a, b);
    }
    let product: i128 = a as i128 * b as i128;
    if product < i64::MIN as i128 {
        i64::MIN
    } else if product > i64::MAX as i128 {
        i64::MAX
    } else {
        product as i64
    }
}

pub fn sat_mul_u64(a: u64, b: u64) -> (r: u64)
    ensures
        r == sat_u64(a * b),
{
    assert(0 <= a * b <= u128::MAX) by (nonlinear_arith)
        requires
            0 <= a <= 0xffff_ffff_ffff_ffff,
            0 <= b <= 0xffff_ffff_ffff_ffff,
    ;
    let product: u128 = a as u128 * b as u128;
    if product > u64::MAX as u128 {
        u64::MAX
    } else {
        product as u64
    }
}

pub fn sat_mul_u16(a: u16, b: u16) -> (r: u16)
    ensures
        r == sat_u16(a * b),
{
    assert(0 <= a * b <= u32::MAX) by (nonlinear_arith)
        requires
            0 <= a <= 0xffff,
            0 <= b <= 0xffff,
    ;
    let product: u32 = a as u32 * b as u32;
    if product > u16::MAX as u32 {
        u16::MAX
    } else {
        product as u16
    }
}

pub fn max_u64(a: u64, b: u64) -> (r: u64)
    ensures
        r == max_int(a as int, b as int),
{
    if a >= b {
        a
    } else {
        b
    }
}

pub fn clamp_i64(x: i64, low: i64, high: i64) -> (r: i64)
    requires
        low <= high,
    ensures
        r == clamp_int(x as int, low as int, high as int),
{
    if x < low {
        low
    } else if x > high {
        high
    } else {
        x
    }
}

/// Whether the magnitude of `x` is at most `bound`.
pub fn within(x: i64, bound: i64) -> (r: bool)
    requires
        0 <= bound,
    ensures
        r == (abs_int(x as int) <= bound),
{
    -bound <= x && x <= bound
}

/// A saturating value is the exact one where the type holds it, and otherwise the end
/// of the type that lies nearest.
pub proof fn law_saturation_is_nearest(x: int)
    ensures
        -0x8000_0000_0000_0000 <= x <= 0x7fff_ffff_ffff_ffff ==> sat_i64(x) == x,
        x > 0x7fff_ffff_ffff_ffff ==> sat_i64(x) == 0x7fff_ffff_ffff_ffff,
        x < -0x8000_0000_0000_0000 ==> sat_i64(x) == -0x8000_0000_0000_0000,
        x <= 0xffff_ffff_ffff_ffff ==> sat_u64(x) == x,
        x > 0xffff_ffff_ffff_ffff ==> sat_u64(x) == 0xffff_ffff_ffff_ffff,
        x <= 0xffff ==> sat_u16(x) == x,
        x > 0xffff ==> sat_u16(x) == 0xffff,
{
}

/// A clamped value lies within the ends, and is the value itself where that does.
pub proof fn law_clamp_is_nearest(x: int, low: int, high: int)
    requires
        low <= high,
    ensures
        low <= clamp_int(x, low, high) <= high,
        low <= x <= high ==> clamp_int(x, low, high) == x,
        x < low ==> clamp_int(x, low, high) == low,
        x > high ==> clamp_int(x, low, high) == high,
{
}

/// The larger and the smaller of two integers are the two of them.
pub proof fn law_larger_and_smaller(a: int, b: int)
    ensures
        max_int(a, b) >= a && max_int(a, b) >= b,
        max_int(a, b) == a || max_int(a, b) == b,
        max_int(a, b) + min_int(a, b) == a + b,
        abs_int(a) == max_int(a, -a),
        abs_int(a) >= 0,
{
}

/// A quotient rounded toward zero leaves a remainder of the dividend's sign that is
/// smaller than the divisor.
pub proof fn law_quotient_rounds_toward_zero(a: int, b: int)
    requires
        b > 0,
    ensures
        a >= 0 ==> 0 <= a - trunc_div(a, b) * b < b,
        a <= 0 ==> -b < a - trunc_div(a, b) * b <= 0,
{
    let n = if a >= 0 {
        a
    } else {
        -a
    };
    let q = n / b;
    assert(n == q * b + n % b && 0 <= n % b < b) by (nonlinear_arith)
        requires
            n >= 0,
            b > 0,
            q == n / b,
    ;
    assert((-q) * b == -(q * b)) by (nonlinear_arith);
}

} // verus!
