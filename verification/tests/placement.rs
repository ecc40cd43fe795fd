use clearing_house::error::ErrorCode;
use clearing_house::events::OrderAction;
use clearing_house::market::{Amm, Market};
use clearing_house::oracle::OracleReading;
use clearing_house::order::{
    Order, OrderDiscountTier, OrderParams, OrderStatus, OrderTriggerCondition, OrderType,
    PositionDirection,
};
use clearing_house::placement::{
    check_user_order_id, draft_order, find_order_slot, get_base_asset_amount_for_order,
    place_order, AuctionPrices, Placement, PlacementAnswers,
};
use clearing_house::position::MarketPosition;
use clearing_house::user::User;

const UNIT: u128 = 1_000_000;

fn placement_market(market_index: u64, step_size: u128) -> Market {
    Market {
        market_index,
        next_trade_record_id: 1,
        amm: Amm {
            oracle: [9u8; 32],
            base_asset_amount_step_size: step_size,
            total_fee: 0,
            total_fee_minus_distributions: 0,
            net_revenue_since_last_funding: 0,
            last_update_slot: 0,
            curve_update_intensity: 0,
            last_oracle_mark_spread_pct: 0,
        },
    }
}

fn limit_params(direction: PositionDirection, base_asset_amount: u128, price: u128) -> OrderParams {
    OrderParams {
        order_type: OrderType::Limit,
        direction,
        user_order_id: 0,
        quote_asset_amount: 0,
        base_asset_amount,
        price,
        market_index: 0,
        reduce_only: false,
        post_only: false,
        immediate_or_cancel: false,
        trigger_price: 0,
        trigger_condition: OrderTriggerCondition::Above,
        oracle_price_offset: 0,
    }
}

fn all_answers() -> PlacementAnswers {
    PlacementAnswers {
        auction: Some(AuctionPrices { start_price: 100, end_price: 110 }),
        validation: Some(Ok(())),
        meets_initial_margin_requirement: Some(true),
    }
}

fn no_answers() -> PlacementAnswers {
    PlacementAnswers { auction: None, validation: None, meets_initial_margin_requirement: None }
}

fn place_with(
    user: &mut User,
    market: &Market,
    params: &OrderParams,
    answers: &PlacementAnswers,
) -> Result<Placement, ErrorCode> {
    place_order(
        user,
        &[1u8; 32],
        market,
        params,
        1_000,
        OrderDiscountTier::NoDiscount,
        None,
        None,
        answers,
    )
}

#[test]
fn placed_order_is_open_with_nothing_filled() {
    let mut user = User::new([7u8; 32]);
    let market = placement_market(0, UNIT);
    let params = limit_params(PositionDirection::Long, 10 * UNIT, 105);
    let placed = place_with(&mut user, &market, &params, &all_answers());
    let record = match placed {
        Ok(Placement::Placed(record)) => record,
        other => panic!("not placed: {:?}", other),
    };
    assert_eq!(record.order.status, OrderStatus::Open);
    assert_eq!(record.order.base_asset_amount_filled, 0);
    assert_eq!(record.order.quote_asset_amount_filled, 0);
    assert_eq!(record.order.base_asset_amount, 10 * UNIT);
    assert_eq!(record.order.order_id, 1);
    assert_eq!(record.order.ts, 1_000);
    assert_eq!(record.order.price, 105);
    assert_eq!(record.order.auction_start_price, 100);
    assert_eq!(record.order.auction_end_price, 110);
    assert_eq!(record.order.referrer, [0u8; 32]);
    assert_eq!(record.action, OrderAction::Place);
    assert_eq!(record.user, [1u8; 32]);
    assert_eq!(record.authority, [7u8; 32]);
    assert_eq!(record.filler, [0u8; 32]);
    assert_eq!(record.trade_record_id, 0);
    assert_eq!(record.base_asset_amount_filled, 0);
    assert_eq!(record.fee, 0);
    assert_eq!(user.orders[0], record.order);
    assert_eq!(user.next_order_id, 2);
    assert_eq!(
        user.positions[0],
        MarketPosition {
            market_index: 0,
            base_asset_amount: 0,
            open_orders: 1,
            open_bids: 10 * UNIT as i128,
            open_asks: 0,
            unsettled_pnl: 0,
        }
    );
}

#[test]
fn placement_asks_for_each_answer_in_turn_and_changes_nothing_meanwhile() {
    let fresh = User::new([7u8; 32]);
    let mut user = fresh;
    let market = placement_market(0, UNIT);
    let params = limit_params(PositionDirection::Short, 3 * UNIT + 5, 105);
    let mut answers = no_answers();

    let first = place_with(&mut user, &market, &params, &answers);
    assert_eq!(
        first,
        Ok(Placement::NeedsAuctionPrices {
            direction: PositionDirection::Short,
            base_asset_amount: 3 * UNIT,
        })
    );
    assert_eq!(user, fresh);

    answers.auction = Some(AuctionPrices { start_price: 110, end_price: 100 });
    let second = place_with(&mut user, &market, &params, &answers);
    let order = match second {
        Ok(Placement::NeedsValidation { order, valid_oracle_price }) => {
            assert_eq!(valid_oracle_price, None);
            order
        }
        other => panic!("no validation asked: {:?}", other),
    };
    assert_eq!(order.base_asset_amount, 3 * UNIT);
    assert_eq!(order.auction_start_price, 110);
    assert_eq!(order.auction_end_price, 100);
    assert_eq!(user, fresh);

    answers.validation = Some(Ok(()));
    let third = place_with(&mut user, &market, &params, &answers);
    let candidate = match third {
        Ok(Placement::NeedsMarginCheck { user }) => user,
        other => panic!("no margin check asked: {:?}", other),
    };
    assert_eq!(candidate.orders[0], order);
    assert_eq!(candidate.positions[0].open_asks, -3 * (UNIT as i128));
    assert_eq!(candidate.positions[0].open_orders, 1);
    assert_eq!(user, fresh);

    answers.meets_initial_margin_requirement = Some(true);
    let last = place_with(&mut user, &market, &params, &answers);
    assert!(matches!(last, Ok(Placement::Placed(_))));
    assert_eq!(user, candidate);
}

#[test]
fn post_only_order_gets_no_auction() {
    let mut user = User::new([7u8; 32]);
    let market = placement_market(0, UNIT);
    let mut params = limit_params(PositionDirection::Long, 2 * UNIT, 105);
    params.post_only = true;
    let answers = PlacementAnswers {
        auction: Some(AuctionPrices { start_price: 100, end_price: 110 }),
        validation: Some(Ok(())),
        meets_initial_margin_requirement: Some(true),
    };
    let placed = place_with(&mut user, &market, &params, &answers);
    assert!(matches!(placed, Ok(Placement::Placed(_))));
    assert_eq!(user.orders[0].auction_start_price, 0);
    assert_eq!(user.orders[0].auction_end_price, 0);

    // Without a base size there is no auction either, and none is asked for.
    let mut unsized_params = limit_params(PositionDirection::Long, 0, 105);
    unsized_params.quote_asset_amount = 500;
    let mut narrow = no_answers();
    narrow.validation = Some(Ok(()));
    narrow.meets_initial_margin_requirement = Some(false);
    let placed = place_with(&mut user, &market, &unsized_params, &narrow);
    assert!(matches!(placed, Ok(Placement::Placed(_))));
    assert_eq!(user.orders[1].auction_end_price, 0);
    assert_eq!(user.orders[1].quote_asset_amount, 500);
    assert_eq!(user.positions[0].open_orders, 2);
    assert_eq!(user.positions[0].open_bids, 2 * UNIT as i128);
}

#[test]
fn second_order_with_same_user_order_id_is_refused() {
    let mut user = User::new([7u8; 32]);
    let market = placement_market(0, UNIT);
    let mut params = limit_params(PositionDirection::Long, 10 * UNIT, 105);
    params.user_order_id = 42;
    assert!(matches!(
        place_with(&mut user, &market, &params, &all_answers()),
        Ok(Placement::Placed(_))
    ));
    let before = user;
    let mut again = limit_params(PositionDirection::Short, UNIT, 200);
    again.user_order_id = 42;
    assert_eq!(
        place_with(&mut user, &market, &again, &all_answers()),
        Err(ErrorCode::UserOrderIdAlreadyInUse)
    );
    assert_eq!(user, before);

    // Orders without an id of the trader's choosing do not collide.
    let plain = limit_params(PositionDirection::Short, UNIT, 200);
    assert!(matches!(
        place_with(&mut user, &market, &plain, &all_answers()),
        Ok(Placement::Placed(_))
    ));
    assert!(matches!(
        place_with(&mut user, &market, &plain, &all_answers()),
        Ok(Placement::Placed(_))
    ));
    assert_eq!(user.orders[1].order_id, 2);
    assert_eq!(user.orders[2].order_id, 3);
}

#[test]
fn full_order_book_is_refused_before_anything_else() {
    let mut user = User::new([7u8; 32]);
    let market = placement_market(0, UNIT);
    let mut params = limit_params(PositionDirection::Long, UNIT, 105);
    for n in 0..32u8 {
        params.user_order_id = n + 1;
        assert!(matches!(
            place_with(&mut user, &market, &params, &all_answers()),
            Ok(Placement::Placed(_))
        ));
    }
    assert_eq!(user.positions[0].open_orders, 32);
    assert_eq!(user.positions[0].open_bids, 32 * UNIT as i128);
    let before = user;
    // The id is in use as well, but the full book is found first.
    params.user_order_id = 1;
    assert_eq!(
        place_with(&mut user, &market, &params, &all_answers()),
        Err(ErrorCode::MaxNumberOfOrders)
    );
    assert_eq!(user, before);
}

#[test]
fn market_that_is_not_the_orders_is_refused() {
    let mut user = User::new([7u8; 32]);
    let market = placement_market(3, UNIT);
    let params = limit_params(PositionDirection::Long, UNIT, 105);
    assert_eq!(
        place_with(&mut user, &market, &params, &all_answers()),
        Err(ErrorCode::MarketNotFound)
    );
}

#[test]
fn sixth_market_finds_no_position_slot() {
    let mut user = User::new([7u8; 32]);
    for market_index in 0..5u64 {
        let market = placement_market(market_index, UNIT);
        let mut params = limit_params(PositionDirection::Long, UNIT, 105);
        params.market_index = market_index;
        assert!(matches!(
            place_with(&mut user, &market, &params, &all_answers()),
            Ok(Placement::Placed(_))
        ));
        assert_eq!(user.positions[market_index as usize].market_index, market_index);
    }
    let before = user;
    let market = placement_market(5, UNIT);
    let mut params = limit_params(PositionDirection::Long, UNIT, 105);
    params.market_index = 5;
    assert_eq!(
        place_with(&mut user, &market, &params, &all_answers()),
        Err(ErrorCode::MaxNumberOfPositions)
    );
    assert_eq!(user, before);
}

#[test]
fn zero_step_size_is_a_math_error() {
    let mut user = User::new([7u8; 32]);
    let market = placement_market(0, 0);
    let params = limit_params(PositionDirection::Long, UNIT, 105);
    assert_eq!(place_with(&mut user, &market, &params, &all_answers()), Err(ErrorCode::MathError));
}

#[test]
fn size_beyond_signed_range_is_a_casting_failure() {
    let mut user = User::new([7u8; 32]);
    let market = placement_market(0, 1);
    let params = limit_params(PositionDirection::Long, u128::MAX, 105);
    assert_eq!(
        place_with(&mut user, &market, &params, &all_answers()),
        Err(ErrorCode::CastingFailure)
    );
}

#[test]
fn open_interest_that_overflows_is_a_math_error() {
    let mut user = User::new([7u8; 32]);
    user.positions[0].open_bids = i128::MAX - 5;
    user.positions[0].open_orders = 1;
    let market = placement_market(0, 1);
    let params = limit_params(PositionDirection::Long, 6, 105);
    assert_eq!(place_with(&mut user, &market, &params, &all_answers()), Err(ErrorCode::MathError));
    let fits = limit_params(PositionDirection::Long, 5, 105);
    assert!(matches!(
        place_with(&mut user, &market, &fits, &all_answers()),
        Ok(Placement::Placed(_))
    ));
    assert_eq!(user.positions[0].open_bids, i128::MAX);
}

#[test]
fn exhausted_order_ids_are_a_math_error() {
    let mut user = User::new([7u8; 32]);
    user.next_order_id = u64::MAX;
    let market = placement_market(0, UNIT);
    let params = limit_params(PositionDirection::Long, UNIT, 105);
    let before = user;
    assert_eq!(place_with(&mut user, &market, &params, &all_answers()), Err(ErrorCode::MathError));
    assert_eq!(user, before);
}

#[test]
fn oracle_relative_order_needs_a_valid_oracle() {
    let market = placement_market(0, UNIT);
    let mut params = limit_params(PositionDirection::Long, UNIT, 0);
    params.oracle_price_offset = -5;

    let mut user = User::new([7u8; 32]);
    let missing = place_order(
        &mut user,
        &[1u8; 32],
        &market,
        &params,
        1_000,
        OrderDiscountTier::NoDiscount,
        None,
        None,
        &all_answers(),
    );
    assert_eq!(missing, Err(ErrorCode::OracleNotFound));

    let invalid = place_order(
        &mut user,
        &[1u8; 32],
        &market,
        &params,
        1_000,
        OrderDiscountTier::NoDiscount,
        None,
        Some(OracleReading { price: 100, is_valid: false }),
        &all_answers(),
    );
    assert_eq!(invalid, Err(ErrorCode::InvalidOracle));
    assert_eq!(user, User::new([7u8; 32]));

    let mut answers = all_answers();
    answers.validation = None;
    let valid = place_order(
        &mut user,
        &[1u8; 32],
        &market,
        &params,
        1_000,
        OrderDiscountTier::Second,
        Some([5u8; 32]),
        Some(OracleReading { price: 100, is_valid: true }),
        &answers,
    );
    match valid {
        Ok(Placement::NeedsValidation { order, valid_oracle_price }) => {
            assert_eq!(valid_oracle_price, Some(100));
            assert_eq!(order.referrer, [5u8; 32]);
            assert_eq!(order.discount_tier, OrderDiscountTier::Second);
            assert_eq!(order.oracle_price_offset, -5);
        }
        other => panic!("no validation asked: {:?}", other),
    }
}

#[test]
fn failed_validation_decides_the_error_and_persists_nothing() {
    let mut user = User::new([7u8; 32]);
    let market = placement_market(0, UNIT);
    let params = limit_params(PositionDirection::Long, UNIT, 105);
    let mut answers = all_answers();
    answers.validation = Some(Err(ErrorCode::InvalidOrder));
    assert_eq!(place_with(&mut user, &market, &params, &answers), Err(ErrorCode::InvalidOrder));
    assert_eq!(user, User::new([7u8; 32]));
}

#[test]
fn risk_increasing_order_without_margin_leaves_the_account_untouched() {
    let mut user = User::new([7u8; 32]);
    let market = placement_market(0, UNIT);
    let first = limit_params(PositionDirection::Long, 2 * UNIT, 105);
    assert!(matches!(
        place_with(&mut user, &market, &first, &all_answers()),
        Ok(Placement::Placed(_))
    ));
    let before = user;
    let mut answers = all_answers();
    answers.meets_initial_margin_requirement = Some(false);
    let more = limit_params(PositionDirection::Long, UNIT, 105);
    assert_eq!(
        place_with(&mut user, &market, &more, &answers),
        Err(ErrorCode::InsufficientCollateral)
    );
    assert_eq!(user.orders, before.orders);
    assert_eq!(user.positions, before.positions);
    assert_eq!(user, before);
}

#[test]
fn order_that_does_not_raise_worst_case_exposure_needs_no_margin() {
    let mut user = User::new([7u8; 32]);
    let market = placement_market(0, UNIT);
    let long = limit_params(PositionDirection::Long, 5 * UNIT, 105);
    assert!(matches!(
        place_with(&mut user, &market, &long, &all_answers()),
        Ok(Placement::Placed(_))
    ));
    let mut answers = all_answers();
    answers.meets_initial_margin_requirement = Some(false);
    // Asks of 5 against bids of 5: the worst case stays at a magnitude of 5.
    let short = limit_params(PositionDirection::Short, 5 * UNIT, 105);
    assert!(matches!(place_with(&mut user, &market, &short, &answers), Ok(Placement::Placed(_))));
    assert_eq!(user.positions[0].open_asks, -5 * (UNIT as i128));
    // One step more on the short side raises it, and is refused.
    let more = limit_params(PositionDirection::Short, UNIT, 105);
    assert_eq!(
        place_with(&mut user, &market, &more, &answers),
        Err(ErrorCode::InsufficientCollateral)
    );
}

#[test]
fn reduce_only_order_within_a_step_of_the_position_closes_it_exactly() {
    let market = placement_market(0, 100);
    let mut params = limit_params(PositionDirection::Short, 0, 105);
    params.reduce_only = true;
    let long_position = MarketPosition {
        market_index: 0,
        base_asset_amount: 1_050,
        open_orders: 0,
        open_bids: 0,
        open_asks: 0,
        unsettled_pnl: 0,
    };
    // Within one step below and above the position: sized to the position.
    assert_eq!(get_base_asset_amount_for_order(&params, &market, &long_position, 1_000), 1_050);
    assert_eq!(get_base_asset_amount_for_order(&params, &market, &long_position, 1_100), 1_050);
    assert_eq!(get_base_asset_amount_for_order(&params, &market, &long_position, 1_150), 1_050);
    // Further away: as asked.
    assert_eq!(get_base_asset_amount_for_order(&params, &market, &long_position, 900), 900);
    assert_eq!(get_base_asset_amount_for_order(&params, &market, &long_position, 1_200), 1_200);
    // No size asked: none.
    assert_eq!(get_base_asset_amount_for_order(&params, &market, &long_position, 0), 0);
    // With the position, not against it: as asked.
    params.direction = PositionDirection::Long;
    assert_eq!(get_base_asset_amount_for_order(&params, &market, &long_position, 1_000), 1_000);
    // Not reduce-only: as asked.
    params.direction = PositionDirection::Short;
    params.reduce_only = false;
    assert_eq!(get_base_asset_amount_for_order(&params, &market, &long_position, 1_000), 1_000);
}

#[test]
fn draft_notes_slot_position_size_and_exposure() {
    let mut user = User::new([7u8; 32]);
    user.positions[0] = MarketPosition {
        market_index: 4,
        base_asset_amount: -30,
        open_orders: 0,
        open_bids: 10,
        open_asks: -20,
        unsettled_pnl: 0,
    };
    user.orders[0] = Order { status: OrderStatus::Open, market_index: 9, ..Order::default() };
    let market = placement_market(4, 10);
    let mut params = limit_params(PositionDirection::Long, 47, 105);
    params.market_index = 4;
    let draft = draft_order(&user, &market, &params).unwrap();
    assert_eq!(draft.order_index, 1);
    assert_eq!(draft.position_index, 0);
    assert_eq!(draft.base_asset_amount, 40);
    assert_eq!(draft.user_base_asset_amount, -30);
    // -30 + 10 = -20 against -30 - 20 = -50: the short side is the worst case.
    assert_eq!(draft.worst_case_before, -50);
    assert_eq!(draft.position.open_bids, 50);
    assert_eq!(draft.position.open_asks, -20);
    assert_eq!(draft.position.open_orders, 1);
}

#[test]
fn order_slot_and_user_order_id_are_checked_on_their_own() {
    let mut user = User::new([7u8; 32]);
    assert_eq!(find_order_slot(&user), Ok(0));
    assert_eq!(check_user_order_id(&user, 0), Ok(()));
    assert_eq!(check_user_order_id(&user, 9), Ok(()));
    user.orders[0] = Order { status: OrderStatus::Open, user_order_id: 9, ..Order::default() };
    assert_eq!(find_order_slot(&user), Ok(1));
    assert_eq!(check_user_order_id(&user, 9), Err(ErrorCode::UserOrderIdAlreadyInUse));
    assert_eq!(check_user_order_id(&user, 8), Ok(()));
    // Zero is no id: it is never in use.
    assert_eq!(check_user_order_id(&user, 0), Ok(()));
    for order in user.orders.iter_mut() {
        order.status = OrderStatus::Open;
    }
    assert_eq!(find_order_slot(&user), Err(ErrorCode::MaxNumberOfOrders));
}

#[test]
fn auction_goes_with_a_base_size_and_no_post_only() {
    let mut params = limit_params(PositionDirection::Long, 5, 105);
    assert!(params.has_auction());
    params.post_only = true;
    assert!(!params.has_auction());
    params.post_only = false;
    params.base_asset_amount = 0;
    assert!(!params.has_auction());
}

#[test]
fn placed_order_leaves_every_other_slot_alone() {
    let mut user = User::new([7u8; 32]);
    let market = placement_market(0, UNIT);
    let params = limit_params(PositionDirection::Long, UNIT, 105);
    for _ in 0..3 {
        assert!(matches!(
            place_with(&mut user, &market, &params, &all_answers()),
            Ok(Placement::Placed(_))
        ));
    }
    user.orders[1] = Order::default();
    let before = user;
    assert!(matches!(
        place_with(&mut user, &market, &params, &all_answers()),
        Ok(Placement::Placed(_))
    ));
    assert_eq!(user.orders[1].status, OrderStatus::Open);
    assert_eq!(user.orders[1].order_id, 4);
    for slot in (0..32).filter(|slot| *slot != 1) {
        assert_eq!(user.orders[slot], before.orders[slot]);
    }
    for slot in 1..5 {
        assert_eq!(user.positions[slot], before.positions[slot]);
    }
}
