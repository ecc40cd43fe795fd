use clearing_house::error::ErrorCode;
use clearing_house::order::PositionDirection;
use clearing_house::position::{
    add_new_position, decrease_open_bids_and_asks, get_position_index,
    increase_open_bids_and_asks, update_unsettled_pnl, MarketPosition,
};

fn holding(market_index: u64, base: i128, bids: i128, asks: i128) -> MarketPosition {
    MarketPosition {
        market_index,
        base_asset_amount: base,
        open_orders: 0,
        open_bids: bids,
        open_asks: asks,
        unsettled_pnl: 0,
    }
}

#[test]
fn default_position_is_available() {
    let position = MarketPosition::default();
    assert!(position.is_available());
    assert!(!position.is_for(0));
    assert_eq!(position, holding(0, 0, 0, 0));
}

#[test]
fn anything_held_makes_a_position_unavailable() {
    assert!(!holding(1, 5, 0, 0).is_available());
    assert!(!holding(1, 0, 5, 0).is_available());
    assert!(!holding(1, 0, 0, -5).is_available());
    assert!(!MarketPosition { open_orders: 1, ..holding(1, 0, 0, 0) }.is_available());
    assert!(!MarketPosition { unsettled_pnl: -1, ..holding(1, 0, 0, 0) }.is_available());
    assert!(holding(1, 0, 0, 0).is_available());
    assert!(holding(1, 5, 0, 0).is_for(1));
    assert!(!holding(1, 5, 0, 0).is_for(2));
}

#[test]
fn worst_case_is_the_side_of_larger_magnitude() {
    assert_eq!(holding(0, 10, 5, -3).worst_case_base_asset_amount(), Ok(15));
    assert_eq!(holding(0, 10, 5, -30).worst_case_base_asset_amount(), Ok(-20));
    assert_eq!(holding(0, -10, 5, -3).worst_case_base_asset_amount(), Ok(-13));
    assert_eq!(holding(0, 0, 0, 0).worst_case_base_asset_amount(), Ok(0));
    // On a tie the short side is reported.
    assert_eq!(holding(0, 0, 7, -7).worst_case_base_asset_amount(), Ok(-7));
    assert_eq!(holding(0, i128::MAX, 1, 0).worst_case_base_asset_amount(), Err(ErrorCode::MathError));
    assert_eq!(
        holding(0, i128::MIN, 0, -1).worst_case_base_asset_amount(),
        Err(ErrorCode::MathError)
    );
    assert_eq!(holding(0, i128::MIN, 0, 0).worst_case_base_asset_amount(), Ok(i128::MIN));
}

#[test]
fn position_is_found_by_its_market_among_those_in_use() {
    let mut positions = [MarketPosition::default(); 5];
    positions[1] = holding(3, 0, 0, 0);
    positions[2] = holding(3, 9, 0, 0);
    positions[4] = holding(0, 1, 0, 0);
    assert_eq!(get_position_index(&positions, 3), Ok(2));
    assert_eq!(get_position_index(&positions, 0), Ok(4));
    assert_eq!(get_position_index(&positions, 7), Err(ErrorCode::UserHasNoPositionInMarket));
}

#[test]
fn new_position_takes_the_first_free_slot() {
    let mut positions = [holding(9, 1, 0, 0); 5];
    positions[2] = holding(4, 0, 0, 0);
    positions[3] = MarketPosition::default();
    assert_eq!(add_new_position(&mut positions, 6), Ok(2));
    assert_eq!(positions[2], holding(6, 0, 0, 0));
    assert_eq!(positions[3], MarketPosition::default());
    positions[2].open_orders = 1;
    assert_eq!(add_new_position(&mut positions, 8), Ok(3));
    positions[3].unsettled_pnl = 1;
    let before = positions;
    assert_eq!(add_new_position(&mut positions, 8), Err(ErrorCode::MaxNumberOfPositions));
    assert_eq!(positions, before);
}

#[test]
fn open_interest_grows_and_shrinks_on_the_orders_side() {
    let mut position = holding(0, 0, 0, 0);
    assert_eq!(increase_open_bids_and_asks(&mut position, PositionDirection::Long, 30), Ok(()));
    assert_eq!(increase_open_bids_and_asks(&mut position, PositionDirection::Short, 20), Ok(()));
    assert_eq!((position.open_bids, position.open_asks), (30, -20));
    assert_eq!(decrease_open_bids_and_asks(&mut position, PositionDirection::Long, 10), Ok(()));
    assert_eq!(decrease_open_bids_and_asks(&mut position, PositionDirection::Short, 5), Ok(()));
    assert_eq!((position.open_bids, position.open_asks), (20, -15));
}

#[test]
fn open_interest_out_of_range_is_refused_unchanged() {
    let mut position = holding(0, 0, i128::MAX, i128::MIN);
    let before = position;
    assert_eq!(
        increase_open_bids_and_asks(&mut position, PositionDirection::Long, 1),
        Err(ErrorCode::MathError)
    );
    assert_eq!(
        increase_open_bids_and_asks(&mut position, PositionDirection::Short, 1),
        Err(ErrorCode::MathError)
    );
    assert_eq!(
        increase_open_bids_and_asks(&mut position, PositionDirection::Long, u128::MAX),
        Err(ErrorCode::CastingFailure)
    );
    assert_eq!(
        decrease_open_bids_and_asks(&mut position, PositionDirection::Short, 1 << 127),
        Err(ErrorCode::CastingFailure)
    );
    let mut low = holding(0, 0, i128::MIN, i128::MAX);
    assert_eq!(
        decrease_open_bids_and_asks(&mut low, PositionDirection::Long, 1),
        Err(ErrorCode::MathError)
    );
    assert_eq!(
        decrease_open_bids_and_asks(&mut low, PositionDirection::Short, 1),
        Err(ErrorCode::MathError)
    );
    assert_eq!(position, before);
}

#[test]
fn unsettled_pnl_accumulates() {
    let mut position = holding(0, 0, 0, 0);
    assert_eq!(update_unsettled_pnl(&mut position, -40), Ok(()));
    assert_eq!(update_unsettled_pnl(&mut position, 15), Ok(()));
    assert_eq!(position.unsettled_pnl, -25);
    position.unsettled_pnl = i128::MAX;
    assert_eq!(update_unsettled_pnl(&mut position, 1), Err(ErrorCode::MathError));
    assert_eq!(position.unsettled_pnl, i128::MAX);
}
