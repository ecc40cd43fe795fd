use clearing_house::error::ErrorCode;
use clearing_house::math::{cast_to_i128, cast_to_u64, min_amount, standardize_base_asset_amount, unsigned_abs};

#[test]
fn standardize_rounds_down_to_a_whole_number_of_steps() {
    assert_eq!(standardize_base_asset_amount(1_234, 100), Ok(1_200));
    assert_eq!(standardize_base_asset_amount(1_200, 100), Ok(1_200));
    assert_eq!(standardize_base_asset_amount(99, 100), Ok(0));
    assert_eq!(standardize_base_asset_amount(0, 100), Ok(0));
    assert_eq!(standardize_base_asset_amount(u128::MAX, 1), Ok(u128::MAX));
}

#[test]
fn standardize_rejects_a_zero_step() {
    assert_eq!(standardize_base_asset_amount(10, 0), Err(ErrorCode::MathError));
}

#[test]
fn unsigned_abs_covers_the_whole_range() {
    assert_eq!(unsigned_abs(0), 0);
    assert_eq!(unsigned_abs(-5), 5);
    assert_eq!(unsigned_abs(7), 7);
    assert_eq!(unsigned_abs(i128::MIN), 1u128 << 127);
    assert_eq!(unsigned_abs(i128::MAX), i128::MAX as u128);
}

#[test]
fn casts_fail_exactly_out_of_range() {
    assert_eq!(cast_to_i128(i128::MAX as u128), Ok(i128::MAX));
    assert_eq!(cast_to_i128(i128::MAX as u128 + 1), Err(ErrorCode::CastingFailure));
    assert_eq!(cast_to_u64(u64::MAX as u128), Ok(u64::MAX));
    assert_eq!(cast_to_u64(u64::MAX as u128 + 1), Err(ErrorCode::CastingFailure));
}

#[test]
fn min_amount_picks_the_smaller() {
    assert_eq!(min_amount(3, 4), 3);
    assert_eq!(min_amount(4, 3), 3);
    assert_eq!(min_amount(4, 4), 4);
}
