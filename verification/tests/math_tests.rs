use stake_for_fee::errors::StakeForFeeError;
use stake_for_fee::math::{mul_shr, safe_mul_div_cast_u64, safe_shl_div, Rounding};

#[test]
fn mul_shr_rounds_down_and_up() {
    let one: u128 = 1u128 << 64;
    assert_eq!(mul_shr(3 * one, 5 * one, Rounding::Down), Ok(15 * one));
    assert_eq!(mul_shr(3, 5, Rounding::Down), Ok(0));
    assert_eq!(mul_shr(3, 5, Rounding::Up), Ok(1));
    assert_eq!(mul_shr(one + 1, one + 1, Rounding::Down), Ok(one + 2));
    assert_eq!(mul_shr(one + 1, one + 1, Rounding::Up), Ok(one + 3));
}

#[test]
fn mul_shr_overflow_is_reported() {
    assert_eq!(mul_shr(u128::MAX, u128::MAX, Rounding::Down), Err(StakeForFeeError::MathOverflow));
    let one: u128 = 1u128 << 64;
    assert_eq!(mul_shr(u128::MAX, one, Rounding::Down), Ok(u128::MAX));
    assert_eq!(mul_shr(u128::MAX, one + 1, Rounding::Down), Err(StakeForFeeError::MathOverflow));
}

#[test]
fn safe_shl_div_gives_per_liquidity_value() {
    assert_eq!(safe_shl_div(100, 200, Rounding::Down), Ok((100u128 << 64) / 200));
    assert_eq!(safe_shl_div(1, 3, Rounding::Down), Ok((1u128 << 64) / 3));
    assert_eq!(safe_shl_div(1, 3, Rounding::Up), Ok((1u128 << 64) / 3 + 1));
    assert_eq!(safe_shl_div(1, 0, Rounding::Down), Err(StakeForFeeError::MathOverflow));
}

#[test]
fn safe_mul_div_cast_u64_reports_each_error() {
    assert_eq!(safe_mul_div_cast_u64(200 * 50, 100), Ok(100));
    assert_eq!(safe_mul_div_cast_u64(7, 2), Ok(3));
    assert_eq!(safe_mul_div_cast_u64(7, 0), Err(StakeForFeeError::MathOverflow));
    assert_eq!(
        safe_mul_div_cast_u64(u128::MAX, 1),
        Err(StakeForFeeError::TypeCastFailed)
    );
    assert_eq!(safe_mul_div_cast_u64(u64::MAX as u128, 1), Ok(u64::MAX));
}
