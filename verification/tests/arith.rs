use tokenization::arith::{
    checked_add, checked_div, checked_mul, checked_sub, integer_sqrt, mul_then_div,
};
use tokenization::MeteraError;

#[test]
fn checked_add_returns_the_sum() {
    assert_eq!(checked_add(1_000_000, 100_000), Ok(1_100_000));
    assert_eq!(checked_add(0, 0), Ok(0));
    assert_eq!(checked_add(u64::MAX - 1, 1), Ok(u64::MAX));
}

#[test]
fn checked_add_rejects_overflow() {
    assert_eq!(checked_add(u64::MAX, 1), Err(MeteraError::ArithmeticOverflow));
    assert_eq!(checked_add(u64::MAX, u64::MAX), Err(MeteraError::ArithmeticOverflow));
}

#[test]
fn checked_sub_returns_the_difference() {
    assert_eq!(checked_sub(1_000, 100), Ok(900));
    assert_eq!(checked_sub(7, 7), Ok(0));
    assert_eq!(checked_sub(u64::MAX, 0), Ok(u64::MAX));
}

#[test]
fn checked_sub_rejects_underflow() {
    assert_eq!(checked_sub(0, 1), Err(MeteraError::ArithmeticOverflow));
    assert_eq!(checked_sub(99, 100), Err(MeteraError::ArithmeticOverflow));
}

#[test]
fn checked_mul_returns_the_product() {
    assert_eq!(checked_mul(400, 900), Ok(360_000));
    assert_eq!(checked_mul(0, u64::MAX), Ok(0));
    assert_eq!(checked_mul(1 << 32, (1 << 32) - 1), Ok(((1u64 << 32) - 1) << 32));
}

#[test]
fn checked_mul_rejects_overflow() {
    assert_eq!(checked_mul(1 << 32, 1 << 32), Err(MeteraError::ArithmeticOverflow));
    assert_eq!(checked_mul(u64::MAX, 2), Err(MeteraError::ArithmeticOverflow));
}

#[test]
fn checked_div_rounds_down() {
    assert_eq!(checked_div(60_000, 900), Ok(66));
    assert_eq!(checked_div(5, 10), Ok(0));
    assert_eq!(checked_div(u64::MAX, 1), Ok(u64::MAX));
}

#[test]
fn checked_div_rejects_a_zero_divisor() {
    assert_eq!(checked_div(1, 0), Err(MeteraError::ArithmeticOverflow));
    assert_eq!(checked_div(0, 0), Err(MeteraError::ArithmeticOverflow));
}

#[test]
fn mul_then_div_rounds_down() {
    assert_eq!(mul_then_div(200, 600, 400), Ok(300));
    assert_eq!(mul_then_div(100, 600, 900), Ok(66));
    assert_eq!(mul_then_div(1_000, 10, 100), Ok(100));
    assert_eq!(mul_then_div(999, 33, 100), Ok(329));
    assert_eq!(mul_then_div(0, 5, 7), Ok(0));
}

#[test]
fn mul_then_div_survives_a_product_beyond_64_bits() {
    assert_eq!(mul_then_div(u64::MAX, u64::MAX, u64::MAX), Ok(u64::MAX));
    assert_eq!(mul_then_div(u64::MAX, 100, 100), Ok(u64::MAX));
    assert_eq!(mul_then_div(1 << 63, 4, 8), Ok(1 << 62));
}

#[test]
fn mul_then_div_rejects_a_zero_divisor() {
    assert_eq!(mul_then_div(5, 5, 0), Err(MeteraError::ArithmeticOverflow));
}

#[test]
fn mul_then_div_rejects_a_quotient_beyond_64_bits() {
    assert_eq!(mul_then_div(u64::MAX, 2, 1), Err(MeteraError::ArithmeticOverflow));
    assert_eq!(mul_then_div(u64::MAX, u64::MAX, 1), Err(MeteraError::ArithmeticOverflow));
    assert_eq!(mul_then_div(1 << 63, 4, 2), Err(MeteraError::ArithmeticOverflow));
}

#[test]
fn integer_sqrt_of_small_values() {
    let expected: [u64; 17] = [0, 1, 1, 1, 2, 2, 2, 2, 2, 3, 3, 3, 3, 3, 3, 3, 4];
    for (x, r) in expected.iter().enumerate() {
        assert_eq!(integer_sqrt(x as u128), *r);
    }
}

#[test]
fn integer_sqrt_rounds_down_around_perfect_squares() {
    assert_eq!(integer_sqrt(360_000), 600);
    assert_eq!(integer_sqrt(359_999), 599);
    assert_eq!(integer_sqrt(360_001), 600);
    assert_eq!(integer_sqrt(361_200), 600);
    assert_eq!(integer_sqrt(361_201), 601);
}

#[test]
fn integer_sqrt_at_the_top_of_the_range() {
    assert_eq!(integer_sqrt(u128::MAX), u64::MAX);
    let top = u64::MAX as u128;
    assert_eq!(integer_sqrt(top * top), u64::MAX);
    assert_eq!(integer_sqrt(top * top - 1), u64::MAX - 1);
    assert_eq!(integer_sqrt(1u128 << 64), 1u64 << 32);
    assert_eq!(integer_sqrt((1u128 << 64) - 1), (1u64 << 32) - 1);
}

#[test]
fn integer_sqrt_is_the_floor_square_root() {
    let mut x: u128 = 1;
    let mut step: u128 = 1;
    while x < u128::MAX / 5 {
        let r = integer_sqrt(x) as u128;
        assert!(r * r <= x);
        assert!(r < u64::MAX as u128 && (r + 1) * (r + 1) > x);
        x = x * 3 + step;
        step += 7;
    }
}

#[test]
fn integer_sqrt_agrees_with_the_standard_library() {
    let samples: [u128; 12] = [
        0,
        1,
        2,
        15,
        16,
        17,
        360_000,
        999_999_999_999,
        (1u128 << 64) + 12_345,
        (1u128 << 100) - 1,
        u128::MAX - 1,
        u128::MAX,
    ];
    for x in samples {
        assert_eq!(integer_sqrt(x) as u128, x.isqrt());
    }
}
