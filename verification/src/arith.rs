//! Overflow-safe arithmetic on token amounts.
//!
//! Every amount in the ledger is a `u64`. Each operation here either returns
//! the exact mathematical result or rejects with
//! [`MeteraError::ArithmeticOverflow`]; none of them wraps or truncates.

use crate::error::MeteraError;
use vstd::prelude::*;

verus! {

/// The exact value `v` as a token amount, or the overflow rejection when `v`
/// is not representable in 64 bits.
pub open spec fn narrow(v: int) -> Result<u64, MeteraError> {
    if 0 <= v <= u64::MAX {
        Ok(v as u64)
    } else {
        Err(MeteraError::ArithmeticOverflow)
    }
}

/// `floor(a * b / c)`, computed without intermediate overflow; rejected when
/// `c` is zero or the quotient is not representable.
pub open spec fn mul_div(a: u64, b: u64, c: u64) -> Result<u64, MeteraError> {
    if c == 0 {
        Err(MeteraError::ArithmeticOverflow)
    } else {
        narrow((a * b) / (c as int))
    }
}

/// `r` is the floor of the square root of `x`.
pub open spec fn is_floor_sqrt(x: nat, r: nat) -> bool {
    r * r <= x < (r + 1) * (r + 1)
}

/// The floor of the square root of `x`.
pub open spec fn floor_sqrt(x: nat) -> nat {
    choose|r: nat| is_floor_sqrt(x, r)
}

/// Squaring is strictly monotonic on the naturals.
proof fn lemma_square_monotonic(a: nat, b: nat)
    requires
        a < b,
    ensures
        (a + 1) * (a + 1) <= b * b,
{
    assert((a + 1) * (a + 1) <= b * b) by (nonlinear_arith)
        requires
            a + 1 <= b,
    ;
}

/// At most one natural number is the floor square root of `x`.
pub proof fn lemma_floor_sqrt_unique(x: nat, r1: nat, r2: nat)
    requires
        is_floor_sqrt(x, r1),
        is_floor_sqrt(x, r2),
    ensures
        r1 == r2,
{
    if r1 < r2 {
        lemma_square_monotonic(r1, r2);
    } else if r2 < r1 {
        lemma_square_monotonic(r2, r1);
    }
}

/// Every natural number has a floor square root.
pub proof fn lemma_floor_sqrt_exists(x: nat)
    ensures
        is_floor_sqrt(x, floor_sqrt(x)),
    decreases x,
{
    if x == 0 {
        assert(is_floor_sqrt(0, 0)) by (nonlinear_arith);
    } else {
        lemma_floor_sqrt_exists((x - 1) as nat);
        let r = floor_sqrt((x - 1) as nat);
        if (r + 1) * (r + 1) <= x {
            assert((r + 1) * (r + 1) < (r + 2) * (r + 2)) by (nonlinear_arith);
            assert(is_floor_sqrt(x, r + 1));
        } else {
            assert(is_floor_sqrt(x, r));
        }
    }
}

/// A number that squares to at most `x` while its successor squares past `x`
/// is the floor square root of `x`.
pub proof fn lemma_floor_sqrt_is(x: nat, r: nat)
    requires
        is_floor_sqrt(x, r),
    ensures
        floor_sqrt(x) == r,
{
    lemma_floor_sqrt_unique(x, r, floor_sqrt(x));
}

/// The product of two 64-bit values fits in 128 bits.
pub proof fn lemma_product_fits(a: u64, b: u64)
    ensures
        0 <= a * b <= u128::MAX,
{
    assert(0 <= a * b <= 0xffff_ffff_ffff_ffff * 0xffff_ffff_ffff_ffff) by (nonlinear_arith)
        requires
            0 <= a <= 0xffff_ffff_ffff_ffff,
            0 <= b <= 0xffff_ffff_ffff_ffff,
    ;
}

/// `a + b`, rejected when the sum overflows.
pub fn checked_add(a: u64, b: u64) -> (r: Result<u64, MeteraError>)
    ensures
        r == narrow(a + b),
{
    match a.checked_add(b) {
        Some(v) => Ok(v),
        None => Err(MeteraError::ArithmeticOverflow),
    }
}

/// `a - b`, rejected when `b` exceeds `a`.
pub fn checked_sub(a: u64, b: u64) -> (r: Result<u64, MeteraError>)
    ensures
        r == narrow(a - b),
{
    match a.checked_sub(b) {
        Some(v) => Ok(v),
        None => Err(MeteraError::ArithmeticOverflow),
    }
}

/// `a * b`, rejected when the product overflows.
pub fn checked_mul(a: u64, b: u64) -> (r: Result<u64, MeteraError>)
    ensures
        r == narrow(a * b),
{
    match a.checked_mul(b) {
        Some(v) => Ok(v),
        None => Err(MeteraError::ArithmeticOverflow),
    }
}

/// `floor(a / b)`, rejected when `b` is zero.
pub fn checked_div(a: u64, b: u64) -> (r: Result<u64, MeteraError>)
    ensures
        r == (if b == 0 {
            Err::<u64, MeteraError>(MeteraError::ArithmeticOverflow)
        } else {
            Ok((a / b) as u64)
        }),
{
    match a.checked_div(b) {
        Some(v) => Ok(v),
        None => Err(MeteraError::ArithmeticOverflow),
    }
}

/// `floor(a * b / c)` through a 128-bit product, so that the multiplication
/// cannot overflow before the division brings the value back down. Rejected
/// when `c` is zero or the quotient does not fit in 64 bits.
pub fn mul_then_div(a: u64, b: u64, c: u64) -> (r: Result<u64, MeteraError>)
    ensures
        r == mul_div(a, b, c),
{
    if c == 0 {
        return Err(MeteraError::ArithmeticOverflow);
    }
    proof {
        lemma_product_fits(a, b);
    }
    let product: u128 = (a as u128) * (b as u128);
    let quotient: u128 = product / (c as u128);
    if quotient > u64::MAX as u128 {
        Err(MeteraError::ArithmeticOverflow)
    } else {
        Ok(quotient as u64)
    }
}

/// The floor of the square root of `x`.
pub fn integer_sqrt(x: u128) -> (r: u64)
    ensures
        is_floor_sqrt(x as nat, r as nat),
        r == floor_sqrt(x as nat),
{
    let mut low: u128 = 0;
    let mut high: u128 = 0x1_0000_0000_0000_0000;
    while high - low > 1
        invariant
            low < high <= 0x1_0000_0000_0000_0000,
            low * low <= x < high * high,
        decreases high - low,
    {
        let middle: u128 = low + (high - low) / 2;
        assert(middle * middle < 0x1_0000_0000_0000_0000 * 0x1_0000_0000_0000_0000)
            by (nonlinear_arith)
            requires
                0 <= middle < 0x1_0000_0000_0000_0000,
        ;
        if middle * middle <= x {
            low = middle;
        } else {
            high = middle;
        }
    }
    proof {
        lemma_floor_sqrt_is(x as nat, low as nat);
    }
    low as u64
}

} // verus!
