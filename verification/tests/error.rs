use clearing_house::error::{ClearingHouseResult, ErrorCode};

#[test]
fn errors_carry_their_messages() {
    assert_eq!(ErrorCode::InsufficientCollateral.message(), "Insufficient collateral");
    assert_eq!(ErrorCode::MaxNumberOfOrders.message(), "Max number of orders taken");
    assert_eq!(ErrorCode::OrderDoesNotExist.message(), "Order does not exist");
    assert_eq!(ErrorCode::OrderNotOpen.message(), "Order not open");
    assert_eq!(ErrorCode::UserOrderIdAlreadyInUse.message(), "User Order Id Already In Use");
    assert_eq!(ErrorCode::TradeSizeTooSmall.message(), "Trade Size Too Small");
    assert_eq!(ErrorCode::SlippageOutsideLimit.message(), "Slippage Outside Limit Price");
    assert_eq!(ErrorCode::OracleMarkSpreadLimit.message(), "Oracle/Mark Spread Too Large");
    assert_eq!(ErrorCode::AMMNotUpdatedInSameSlot.message(), "AMMNotUpdatedInSameSlot");
    assert_eq!(ErrorCode::MathError.message(), "Math Error");
    assert_eq!(
        ErrorCode::CastingFailure.message(),
        "Casting Failure"
    );
    assert_eq!(ErrorCode::InvalidBankAuthority.message(), "Invalid Bank Authority");
    assert_eq!(
        ErrorCode::TryingToRemoveLiquidityTooFast.message(),
        "Trying to remove liqudity too fast after adding it"
    );
}

#[test]
fn result_defaults_to_unit() {
    let fine: ClearingHouseResult = Ok(());
    let failed: ClearingHouseResult<u128> = Err(ErrorCode::MathError);
    assert_eq!(fine, Ok(()));
    assert_eq!(failed, Err(ErrorCode::MathError));
    assert_ne!(ErrorCode::MathError, ErrorCode::CastingFailure);
}
