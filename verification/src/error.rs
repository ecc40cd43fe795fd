//! The closed set of errors of the exchange.

use vstd::prelude::*;

verus! {

/// Every way a call into the order engine can be rejected.
///
/// The set is closed: each fallible step returns one of these values and the
/// first failure ends the call.
#[derive(Clone, Copy, Debug, PartialEq, Eq, Structural)]
pub enum ErrorCode {
    InvalidBankAuthority,
    InvalidInsuranceAccountAuthority,
    InsufficientDeposit,
    InsufficientCollateral,
    SufficientCollateral,
    MaxNumberOfPositions,
    AdminControlsPricesDisabled,
    MarketIndexNotInitialized,
    MarketIndexAlreadyInitialized,
    UserAccountAndUserPositionsAccountMismatch,
    UserHasNoPositionInMarket,
    InvalidInitialPeg,
    InvalidRepegRedundant,
    InvalidRepegDirection,
    InvalidRepegProfitability,
    SlippageOutsideLimit,
    TradeSizeTooSmall,
    InvalidUpdateK,
    AdminWithdrawTooLarge,
    MathError,
    BnConversionError,
    ClockUnavailable,
    UnableToLoadOracle,
    OracleMarkSpreadLimit,
    ExchangePaused,
    InvalidWhitelistToken,
    WhitelistTokenNotFound,
    InvalidDiscountToken,
    DiscountTokenNotFound,
    InvalidReferrer,
    ReferrerNotFound,
    InvalidOracle,
    OracleNotFound,
    LiquidationsBlockedByOracle,
    UserMaxDeposit,
    CantDeleteUserWithCollateral,
    InvalidFundingProfitability,
    CastingFailure,
    InvalidOrder,
    UserHasNoOrder,
    OrderAmountTooSmall,
    MaxNumberOfOrders,
    OrderDoesNotExist,
    OrderNotOpen,
    FillOrderDidNotUpdateState,
    ReduceOnlyOrderIncreasedRisk,
    UnableToLoadAccountLoader,
    TradeSizeTooLarge,
    UserCantReferThemselves,
    DidNotReceiveExpectedReferrer,
    CouldNotDeserializeReferrer,
    UserOrderIdAlreadyInUse,
    NoPositionsLiquidatable,
    InvalidMarginRatio,
    CantCancelPostOnlyOrder,
    InvalidOracleOffset,
    CantExpireOrders,
    CouldNotLoadMarketData,
    MarketNotFound,
    InvalidMarketAccount,
    UnableToLoadMarketAccount,
    MarketWrongMutability,
    UnableToCastUnixTime,
    CouldNotFindBankBalance,
    NoUserBankBalanceAvailable,
    InvalidBankInitialization,
    CouldNotLoadBankData,
    BankNotFound,
    InvalidBankAccount,
    UnableToLoadBankAccount,
    BankWrongMutability,
    BankInterestNotUpToDate,
    BankInsufficientDeposits,
    UserMustSettleTheirOwnPositiveUnsettledPNL,
    CantUpdatePoolBalanceType,
    InsufficientCollateralForSettlingPNL,
    AMMNotUpdatedInSameSlot,
    AuctionNotComplete,
    MakerNotFound,
    MakerStatsNotFound,
    MakerMustBeWritable,
    MakerStatsMustBeWritable,
    MakerOrderNotFound,
    CouldNotDeserializeMaker,
    CouldNotDeserializeMakerStats,
    AuctionPriceDoesNotSatisfyMaker,
    MakerCantFulfillOwnOrder,
    MakerOrderMustBePostOnly,
    CantMatchTwoPostOnlys,
    OrderBreachesOraclePriceLimits,
    OrderMustBeTriggeredFirst,
    OrderNotTriggerable,
    OrderDidNotSatisfyTriggerCondition,
    PositionAlreadyBeingLiquidated,
    PositionDoesntHaveOpenPositionOrOrders,
    AllOrdersAreAlreadyLiquidations,
    CantCancelLiquidationOrder,
    UserIsBeingLiquidated,
    LiquidationsOngoing,
    WrongBankBalanceType,
    UserCantLiquidateThemself,
    InvalidPerpPositionToLiquidate,
    InvalidBaseAssetAmountForLiquidatePerp,
    InvalidPositionLastFundingRate,
    InvalidPositionDelta,
    UserBankrupt,
    UserNotBankrupt,
    UserHasInvalidBorrow,
    BankDailyWithdrawLimit,
    DefaultError,
    InsufficientLPTokens,
    CantLPWithMarketPosition,
    UnableToBurnLPTokens,
    TryingToRemoveLiquidityTooFast,
}

/// What every fallible step of the engine returns.
pub type ClearingHouseResult<T = ()> = Result<T, ErrorCode>;

impl ErrorCode {
    /// The message that goes with the error.
    pub open spec fn spec_message(self) -> &'static str {
        match self {
            ErrorCode::InvalidBankAuthority => "Invalid Bank Authority",
            ErrorCode::InvalidInsuranceAccountAuthority => "Clearing house not insurance account owner",
            ErrorCode::InsufficientDeposit => "Insufficient deposit",
            ErrorCode::InsufficientCollateral => "Insufficient collateral",
            ErrorCode::SufficientCollateral => "Sufficient collateral",
            ErrorCode::MaxNumberOfPositions => "Max number of positions taken",
            ErrorCode::AdminControlsPricesDisabled => "Admin Controls Prices Disabled",
            ErrorCode::MarketIndexNotInitialized => "Market Index Not Initialized",
            ErrorCode::MarketIndexAlreadyInitialized => "Market Index Already Initialized",
            ErrorCode::UserAccountAndUserPositionsAccountMismatch => "User Account And User Positions Account Mismatch",
            ErrorCode::UserHasNoPositionInMarket => "User Has No Position In Market",
            ErrorCode::InvalidInitialPeg => "Invalid Initial Peg",
            ErrorCode::InvalidRepegRedundant => "AMM repeg already configured with amt given",
            ErrorCode::InvalidRepegDirection => "AMM repeg incorrect repeg direction",
            ErrorCode::InvalidRepegProfitability => "AMM repeg out of bounds pnl",
            ErrorCode::SlippageOutsideLimit => "Slippage Outside Limit Price",
            ErrorCode::TradeSizeTooSmall => "Trade Size Too Small",
            ErrorCode::InvalidUpdateK => "Price change too large when updating K",
            ErrorCode::AdminWithdrawTooLarge => "Admin tried to withdraw amount larger than fees collected",
            ErrorCode::MathError => "Math Error",
            ErrorCode::BnConversionError => "Conversion to u128/u64 failed with an overflow or underflow",
            ErrorCode::ClockUnavailable => "Clock unavailable",
            ErrorCode::UnableToLoadOracle => "Unable To Load Oracles",
            ErrorCode::OracleMarkSpreadLimit => "Oracle/Mark Spread Too Large",
            ErrorCode::ExchangePaused => "Exchange is paused",
            ErrorCode::InvalidWhitelistToken => "Invalid whitelist token",
            ErrorCode::WhitelistTokenNotFound => "Whitelist token not found",
            ErrorCode::InvalidDiscountToken => "Invalid discount token",
            ErrorCode::DiscountTokenNotFound => "Discount token not found",
            ErrorCode::InvalidReferrer => "Invalid referrer",
            ErrorCode::ReferrerNotFound => "Referrer not found",
            ErrorCode::InvalidOracle => "InvalidOracle",
            ErrorCode::OracleNotFound => "OracleNotFound",
            ErrorCode::LiquidationsBlockedByOracle => "Liquidations Blocked By Oracle",
            ErrorCode::UserMaxDeposit => "Can not deposit more than max deposit",
            ErrorCode::CantDeleteUserWithCollateral => "Can not delete user that still has collateral",
            ErrorCode::InvalidFundingProfitability => "AMM funding out of bounds pnl",
            ErrorCode::CastingFailure => "Casting Failure",
            ErrorCode::InvalidOrder => "Invalid Order",
            ErrorCode::UserHasNoOrder => "User has no order",
            ErrorCode::OrderAmountTooSmall => "Order Amount Too Small",
            ErrorCode::MaxNumberOfOrders => "Max number of orders taken",
            ErrorCode::OrderDoesNotExist => "Order does not exist",
            ErrorCode::OrderNotOpen => "Order not open",
            ErrorCode::FillOrderDidNotUpdateState => "FillOrderDidNotUpdateState",
            ErrorCode::ReduceOnlyOrderIncreasedRisk => "Reduce only order increased risk",
            ErrorCode::UnableToLoadAccountLoader => "Unable to load AccountLoader",
            ErrorCode::TradeSizeTooLarge => "Trade Size Too Large",
            ErrorCode::UserCantReferThemselves => "User cant refer themselves",
            ErrorCode::DidNotReceiveExpectedReferrer => "Did not receive expected referrer",
            ErrorCode::CouldNotDeserializeReferrer => "Could not deserialize referrer",
            ErrorCode::UserOrderIdAlreadyInUse => "User Order Id Already In Use",
            ErrorCode::NoPositionsLiquidatable => "No positions liquidatable",
            ErrorCode::InvalidMarginRatio => "Invalid Margin Ratio",
            ErrorCode::CantCancelPostOnlyOrder => "Cant Cancel Post Only Order",
            ErrorCode::InvalidOracleOffset => "InvalidOracleOffset",
            ErrorCode::CantExpireOrders => "CantExpireOrders",
            ErrorCode::CouldNotLoadMarketData => "CouldNotLoadMarketData",
            ErrorCode::MarketNotFound => "MarketNotFound",
            ErrorCode::InvalidMarketAccount => "InvalidMarketAccount",
            ErrorCode::UnableToLoadMarketAccount => "UnableToLoadMarketAccount",
            ErrorCode::MarketWrongMutability => "MarketWrongMutability",
            ErrorCode::UnableToCastUnixTime => "UnableToCastUnixTime",
            ErrorCode::CouldNotFindBankBalance => "CouldNotFindBankBalance",
            ErrorCode::NoUserBankBalanceAvailable => "NoUserBankBalanceAvailable",
            ErrorCode::InvalidBankInitialization => "InvalidBankInitialization",
            ErrorCode::CouldNotLoadBankData => "CouldNotLoadBankData",
            ErrorCode::BankNotFound => "BankNotFound",
            ErrorCode::InvalidBankAccount => "InvalidBankAccount",
            ErrorCode::UnableToLoadBankAccount => "UnableToLoadBankAccount",
            ErrorCode::BankWrongMutability => "BankWrongMutability",
            ErrorCode::BankInterestNotUpToDate => "BankInterestNotUpToDate",
            ErrorCode::BankInsufficientDeposits => "BankInsufficientDeposits",
            ErrorCode::UserMustSettleTheirOwnPositiveUnsettledPNL => "UserMustSettleTheirOwnPositiveUnsettledPNL",
            ErrorCode::CantUpdatePoolBalanceType => "CantUpdatePoolBalanceType",
            ErrorCode::InsufficientCollateralForSettlingPNL => "InsufficientCollateralForSettlingPNL",
            ErrorCode::AMMNotUpdatedInSameSlot => "AMMNotUpdatedInSameSlot",
            ErrorCode::AuctionNotComplete => "AuctionNotComplete",
            ErrorCode::MakerNotFound => "MakerNotFound",
            ErrorCode::MakerStatsNotFound => "MakerNotFound",
            ErrorCode::MakerMustBeWritable => "MakerMustBeWritable",
            ErrorCode::MakerStatsMustBeWritable => "MakerMustBeWritable",
            ErrorCode::MakerOrderNotFound => "MakerOrderNotFound",
            ErrorCode::CouldNotDeserializeMaker => "CouldNotDeserializeMaker",
            ErrorCode::CouldNotDeserializeMakerStats => "CouldNotDeserializeMaker",
            ErrorCode::AuctionPriceDoesNotSatisfyMaker => "AuctionPriceDoesNotSatisfyMaker",
            ErrorCode::MakerCantFulfillOwnOrder => "MakerCantFulfillOwnOrder",
            ErrorCode::MakerOrderMustBePostOnly => "MakerOrderMustBePostOnly",
            ErrorCode::CantMatchTwoPostOnlys => "CantMatchTwoPostOnlys",
            ErrorCode::OrderBreachesOraclePriceLimits => "OrderBreachesOraclePriceLimits",
            ErrorCode::OrderMustBeTriggeredFirst => "OrderMustBeTriggeredFirst",
            ErrorCode::OrderNotTriggerable => "OrderNotTriggerable",
            ErrorCode::OrderDidNotSatisfyTriggerCondition => "OrderDidNotSatisfyTriggerCondition",
            ErrorCode::PositionAlreadyBeingLiquidated => "PositionAlreadyBeingLiquidated",
            ErrorCode::PositionDoesntHaveOpenPositionOrOrders => "PositionDoesntHaveOpenPositionOrOrders",
            ErrorCode::AllOrdersAreAlreadyLiquidations => "AllOrdersAreAlreadyLiquidations",
            ErrorCode::CantCancelLiquidationOrder => "CantCancelLiquidationOrder",
            ErrorCode::UserIsBeingLiquidated => "UserIsBeingLiquidated",
            ErrorCode::LiquidationsOngoing => "LiquidationsOngoing",
            ErrorCode::WrongBankBalanceType => "WrongBankBalanceType",
            ErrorCode::UserCantLiquidateThemself => "UserCantLiquidateThemself",
            ErrorCode::InvalidPerpPositionToLiquidate => "InvalidPerpPositionToLiquidate",
            ErrorCode::InvalidBaseAssetAmountForLiquidatePerp => "InvalidBaseAssetAmountForLiquidatePerp",
            ErrorCode::InvalidPositionLastFundingRate => "InvalidPositionLastFundingRate",
            ErrorCode::InvalidPositionDelta => "InvalidPositionDelta",
            ErrorCode::UserBankrupt => "UserBankrupt",
            ErrorCode::UserNotBankrupt => "UserNotBankrupt",
            ErrorCode::UserHasInvalidBorrow => "UserHasInvalidBorrow",
            ErrorCode::BankDailyWithdrawLimit => "BankDailyWithdrawLimit",
            ErrorCode::DefaultError => "DefaultError",
            ErrorCode::InsufficientLPTokens => "Insufficient LP tokens",
            ErrorCode::CantLPWithMarketPosition => "Cant LP with a market position",
            ErrorCode::UnableToBurnLPTokens => "Unable to burn LP tokens",
            ErrorCode::TryingToRemoveLiquidityTooFast => "Trying to remove liqudity too fast after adding it",
        }
    }

    /// The message that goes with the error, for logs and for clients.
    #[verifier::when_used_as_spec(spec_message)]
    pub fn message(self) -> (r: &'static str)
        ensures
            r == self.spec_message(),
    {
        match self {
            ErrorCode::InvalidBankAuthority => "Invalid Bank Authority",
            ErrorCode::InvalidInsuranceAccountAuthority => "Clearing house not insurance account owner",
            ErrorCode::InsufficientDeposit => "Insufficient deposit",
            ErrorCode::InsufficientCollateral => "Insufficient collateral",
            ErrorCode::SufficientCollateral => "Sufficient collateral",
            ErrorCode::MaxNumberOfPositions => "Max number of positions taken",
            ErrorCode::AdminControlsPricesDisabled => "Admin Controls Prices Disabled",
            ErrorCode::MarketIndexNotInitialized => "Market Index Not Initialized",
            ErrorCode::MarketIndexAlreadyInitialized => "Market Index Already Initialized",
            ErrorCode::UserAccountAndUserPositionsAccountMismatch => "User Account And User Positions Account Mismatch",
            ErrorCode::UserHasNoPositionInMarket => "User Has No Position In Market",
            ErrorCode::InvalidInitialPeg => "Invalid Initial Peg",
            ErrorCode::InvalidRepegRedundant => "AMM repeg already configured with amt given",
            ErrorCode::InvalidRepegDirection => "AMM repeg incorrect repeg direction",
            ErrorCode::InvalidRepegProfitability => "AMM repeg out of bounds pnl",
            ErrorCode::SlippageOutsideLimit => "Slippage Outside Limit Price",
            ErrorCode::TradeSizeTooSmall => "Trade Size Too Small",
            ErrorCode::InvalidUpdateK => "Price change too large when updating K",
            ErrorCode::AdminWithdrawTooLarge => "Admin tried to withdraw amount larger than fees collected",
            ErrorCode::MathError => "Math Error",
            ErrorCode::BnConversionError => "Conversion to u128/u64 failed with an overflow or underflow",
            ErrorCode::ClockUnavailable => "Clock unavailable",
            ErrorCode::UnableToLoadOracle => "Unable To Load Oracles",
            ErrorCode::OracleMarkSpreadLimit => "Oracle/Mark Spread Too Large",
            ErrorCode::ExchangePaused => "Exchange is paused",
            ErrorCode::InvalidWhitelistToken => "Invalid whitelist token",
            ErrorCode::WhitelistTokenNotFound => "Whitelist token not found",
            ErrorCode::InvalidDiscountToken => "Invalid discount token",
            ErrorCode::DiscountTokenNotFound => "Discount token not found",
            ErrorCode::InvalidReferrer => "Invalid referrer",
            ErrorCode::ReferrerNotFound => "Referrer not found",
            ErrorCode::InvalidOracle => "InvalidOracle",
            ErrorCode::OracleNotFound => "OracleNotFound",
            ErrorCode::LiquidationsBlockedByOracle => "Liquidations Blocked By Oracle",
            ErrorCode::UserMaxDeposit => "Can not deposit more than max deposit",
            ErrorCode::CantDeleteUserWithCollateral => "Can not delete user that still has collateral",
            ErrorCode::InvalidFundingProfitability => "AMM funding out of bounds pnl",
            ErrorCode::CastingFailure => "Casting Failure",
            ErrorCode::InvalidOrder => "Invalid Order",
            ErrorCode::UserHasNoOrder => "User has no order",
            ErrorCode::OrderAmountTooSmall => "Order Amount Too Small",
            ErrorCode::MaxNumberOfOrders => "Max number of orders taken",
            ErrorCode::OrderDoesNotExist => "Order does not exist",
            ErrorCode::OrderNotOpen => "Order not open",
            ErrorCode::FillOrderDidNotUpdateState => "FillOrderDidNotUpdateState",
            ErrorCode::ReduceOnlyOrderIncreasedRisk => "Reduce only order increased risk",
            ErrorCode::UnableToLoadAccountLoader => "Unable to load AccountLoader",
            ErrorCode::TradeSizeTooLarge => "Trade Size Too Large",
            ErrorCode::UserCantReferThemselves => "User cant refer themselves",
            ErrorCode::DidNotReceiveExpectedReferrer => "Did not receive expected referrer",
            ErrorCode::CouldNotDeserializeReferrer => "Could not deserialize referrer",
            ErrorCode::UserOrderIdAlreadyInUse => "User Order Id Already In Use",
            ErrorCode::NoPositionsLiquidatable => "No positions liquidatable",
            ErrorCode::InvalidMarginRatio => "Invalid Margin Ratio",
            ErrorCode::CantCancelPostOnlyOrder => "Cant Cancel Post Only Order",
            ErrorCode::InvalidOracleOffset => "InvalidOracleOffset",
            ErrorCode::CantExpireOrders => "CantExpireOrders",
            ErrorCode::CouldNotLoadMarketData => "CouldNotLoadMarketData",
            ErrorCode::MarketNotFound => "MarketNotFound",
            ErrorCode::InvalidMarketAccount => "InvalidMarketAccount",
            ErrorCode::UnableToLoadMarketAccount => "UnableToLoadMarketAccount",
            ErrorCode::MarketWrongMutability => "MarketWrongMutability",
            ErrorCode::UnableToCastUnixTime => "UnableToCastUnixTime",
            ErrorCode::CouldNotFindBankBalance => "CouldNotFindBankBalance",
            ErrorCode::NoUserBankBalanceAvailable => "NoUserBankBalanceAvailable",
            ErrorCode::InvalidBankInitialization => "InvalidBankInitialization",
            ErrorCode::CouldNotLoadBankData => "CouldNotLoadBankData",
            ErrorCode::BankNotFound => "BankNotFound",
            ErrorCode::InvalidBankAccount => "InvalidBankAccount",
            ErrorCode::UnableToLoadBankAccount => "UnableToLoadBankAccount",
            ErrorCode::BankWrongMutability => "BankWrongMutability",
            ErrorCode::BankInterestNotUpToDate => "BankInterestNotUpToDate",
            ErrorCode::BankInsufficientDeposits => "BankInsufficientDeposits",
            ErrorCode::UserMustSettleTheirOwnPositiveUnsettledPNL => "UserMustSettleTheirOwnPositiveUnsettledPNL",
            ErrorCode::CantUpdatePoolBalanceType => "CantUpdatePoolBalanceType",
            ErrorCode::InsufficientCollateralForSettlingPNL => "InsufficientCollateralForSettlingPNL",
            ErrorCode::AMMNotUpdatedInSameSlot => "AMMNotUpdatedInSameSlot",
            ErrorCode::AuctionNotComplete => "AuctionNotComplete",
            ErrorCode::MakerNotFound => "MakerNotFound",
            ErrorCode::MakerStatsNotFound => "MakerNotFound",
            ErrorCode::MakerMustBeWritable => "MakerMustBeWritable",
            ErrorCode::MakerStatsMustBeWritable => "MakerMustBeWritable",
            ErrorCode::MakerOrderNotFound => "MakerOrderNotFound",
            ErrorCode::CouldNotDeserializeMaker => "CouldNotDeserializeMaker",
            ErrorCode::CouldNotDeserializeMakerStats => "CouldNotDeserializeMaker",
            ErrorCode::AuctionPriceDoesNotSatisfyMaker => "AuctionPriceDoesNotSatisfyMaker",
            ErrorCode::MakerCantFulfillOwnOrder => "MakerCantFulfillOwnOrder",
            ErrorCode::MakerOrderMustBePostOnly => "MakerOrderMustBePostOnly",
            ErrorCode::CantMatchTwoPostOnlys => "CantMatchTwoPostOnlys",
            ErrorCode::OrderBreachesOraclePriceLimits => "OrderBreachesOraclePriceLimits",
            ErrorCode::OrderMustBeTriggeredFirst => "OrderMustBeTriggeredFirst",
            ErrorCode::OrderNotTriggerable => "OrderNotTriggerable",
            ErrorCode::OrderDidNotSatisfyTriggerCondition => "OrderDidNotSatisfyTriggerCondition",
            ErrorCode::PositionAlreadyBeingLiquidated => "PositionAlreadyBeingLiquidated",
            ErrorCode::PositionDoesntHaveOpenPositionOrOrders => "PositionDoesntHaveOpenPositionOrOrders",
            ErrorCode::AllOrdersAreAlreadyLiquidations => "AllOrdersAreAlreadyLiquidations",
            ErrorCode::CantCancelLiquidationOrder => "CantCancelLiquidationOrder",
            ErrorCode::UserIsBeingLiquidated => "UserIsBeingLiquidated",
            ErrorCode::LiquidationsOngoing => "LiquidationsOngoing",
            ErrorCode::WrongBankBalanceType => "WrongBankBalanceType",
            ErrorCode::UserCantLiquidateThemself => "UserCantLiquidateThemself",
            ErrorCode::InvalidPerpPositionToLiquidate => "InvalidPerpPositionToLiquidate",
            ErrorCode::InvalidBaseAssetAmountForLiquidatePerp => "InvalidBaseAssetAmountForLiquidatePerp",
            ErrorCode::InvalidPositionLastFundingRate => "InvalidPositionLastFundingRate",
            ErrorCode::InvalidPositionDelta => "InvalidPositionDelta",
            ErrorCode::UserBankrupt => "UserBankrupt",
            ErrorCode::UserNotBankrupt => "UserNotBankrupt",
            ErrorCode::UserHasInvalidBorrow => "UserHasInvalidBorrow",
            ErrorCode::BankDailyWithdrawLimit => "BankDailyWithdrawLimit",
            ErrorCode::DefaultError => "DefaultError",
            ErrorCode::InsufficientLPTokens => "Insufficient LP tokens",
            ErrorCode::CantLPWithMarketPosition => "Cant LP with a market position",
            ErrorCode::UnableToBurnLPTokens => "Unable to burn LP tokens",
            ErrorCode::TryingToRemoveLiquidityTooFast => "Trying to remove liqudity too fast after adding it",
        }
    }
}

} // verus!
