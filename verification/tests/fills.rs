use clearing_house::error::ErrorCode;
use clearing_house::events::OrderAction;
use clearing_house::execution::{Capacity, SwapOutcome, SwapRequest};
use clearing_house::fulfillment::{fill_order, is_fill_blocked_by_spread, FillStep, PreFill};
use clearing_house::market::{Amm, Market};
use clearing_house::oracle::OracleReading;
use clearing_house::order::{
    Order, OrderDiscountTier, OrderParams, OrderStatus, OrderTriggerCondition, OrderType,
    PositionDirection,
};
use clearing_house::placement::{place_order, AuctionPrices, Placement, PlacementAnswers};
use clearing_house::position::MarketPosition;
use clearing_house::settlement::{OrderFees, PostSwap};
use clearing_house::user::User;

const ONE: u128 = 10_000_000_000_000;
const HALF: u128 = ONE / 2;
const TRADER: [u8; 32] = [1u8; 32];
const FILLER: [u8; 32] = [2u8; 32];
const SLOT: u64 = 900;
const NOW: i64 = 5_000;

fn fill_market(step_size: u128) -> Market {
    Market {
        market_index: 0,
        next_trade_record_id: 17,
        amm: Amm {
            oracle: [9u8; 32],
            base_asset_amount_step_size: step_size,
            total_fee: 1_000,
            total_fee_minus_distributions: 900,
            net_revenue_since_last_funding: -50,
            last_update_slot: SLOT,
            curve_update_intensity: 100,
            last_oracle_mark_spread_pct: 10,
        },
    }
}

fn order_params(order_type: OrderType, base_asset_amount: u128, price: u128) -> OrderParams {
    OrderParams {
        order_type,
        direction: PositionDirection::Long,
        user_order_id: 0,
        quote_asset_amount: 0,
        base_asset_amount,
        price,
        market_index: 0,
        reduce_only: false,
        post_only: false,
        immediate_or_cancel: false,
        trigger_price: 0,
        trigger_condition: OrderTriggerCondition::Above,
        oracle_price_offset: 0,
    }
}

fn place(user: &mut User, market: &Market, params: &OrderParams) -> Order {
    let answers = PlacementAnswers {
        auction: Some(AuctionPrices { start_price: 100, end_price: 110 }),
        validation: Some(Ok(())),
        meets_initial_margin_requirement: Some(true),
    };
    let placed = place_order(
        user,
        &TRADER,
        market,
        params,
        NOW - 10,
        OrderDiscountTier::NoDiscount,
        None,
        None,
        &answers,
    );
    match placed {
        Ok(Placement::Placed(record)) => record.order,
        other => panic!("not placed: {:?}", other),
    }
}

fn pre_fill(user_can_execute: u128, market_can_execute: u128) -> PreFill {
    PreFill {
        mark_price_before: 1_000,
        oracle: OracleReading { price: 1_001, is_valid: true },
        capacity: Capacity { user_can_execute, market_can_execute },
        max_oracle_mark_spread_pct: 100,
    }
}

fn swap_of(base_asset_amount: u128, quote_asset_amount: u128, position_after: i128) -> SwapOutcome {
    SwapOutcome {
        potentially_risk_increasing: true,
        reduce_only: false,
        base_asset_amount,
        quote_asset_amount,
        quote_asset_amount_surplus: 3,
        pnl: 0,
        position_base_asset_amount: position_after,
        limit_price_satisfied: true,
    }
}

fn post_swap(outcome: SwapOutcome) -> PostSwap {
    PostSwap {
        outcome,
        fees: OrderFees {
            user_fee: 40,
            fee_to_market: 30,
            token_discount: 2,
            filler_reward: 10,
            referrer_reward: 5,
            referee_discount: 1,
        },
        mark_price_after: 1_010,
        oracle_price_after: 1_002,
        oracle_mark_spread_pct_after: 20,
    }
}

#[test]
fn limit_order_filled_in_full_leaves_the_book() {
    let mut user = User::new([7u8; 32]);
    let mut market = fill_market(ONE);
    assert_eq!(user.positions[0].open_orders, 0);
    let order = place(&mut user, &market, &order_params(OrderType::Limit, 10 * ONE, 105));
    assert_eq!(user.positions[0].open_orders, 1);
    assert_eq!(user.positions[0].open_bids, 10 * ONE as i128);

    let mut filler = Some(User::new([8u8; 32]));
    let mut referrer = Some(User::new([6u8; 32]));
    let pre = pre_fill(10 * ONE, 10 * ONE);

    // The engine first says what to swap.
    let (user_before, market_before) = (user, market);
    let asked = fill_order(
        order.order_id,
        &mut user,
        &TRADER,
        &mut market,
        &mut filler,
        &FILLER,
        &mut referrer,
        NOW,
        SLOT,
        &pre,
        None,
    );
    assert_eq!(
        asked,
        Ok(FillStep::NeedsSwap(SwapRequest {
            base_asset_amount: 10 * ONE,
            direction: PositionDirection::Long,
            maker_limit_price: None,
        }))
    );
    assert_eq!(user, user_before);
    assert_eq!(market, market_before);
    assert_eq!(filler, Some(User::new([8u8; 32])));

    // Then it settles the swap.
    let post = post_swap(swap_of(10 * ONE, 1_000_000, 10 * ONE as i128));
    let done = fill_order(
        order.order_id,
        &mut user,
        &TRADER,
        &mut market,
        &mut filler,
        &FILLER,
        &mut referrer,
        NOW,
        SLOT,
        &pre,
        Some(post),
    );
    let filled = match done {
        Ok(FillStep::Filled(filled)) => filled,
        other => panic!("not filled: {:?}", other),
    };
    assert_eq!(filled.base_asset_amount, 10 * ONE);
    // The funding rate is to be recomputed against the mark price from
    // before the fill.
    assert_eq!(filled.funding_reference_price, 1_000);

    // The order's slot is empty again and the position counts no order.
    assert_eq!(user.orders[0], Order::default());
    assert_eq!(
        user.positions[0],
        MarketPosition {
            market_index: 0,
            base_asset_amount: 10 * ONE as i128,
            open_orders: 0,
            open_bids: 0,
            open_asks: 0,
            unsettled_pnl: -40,
        }
    );
    assert_eq!(user.total_fee_paid, 40);
    assert_eq!(user.total_fee_rebate, 0);
    assert_eq!(user.total_token_discount, 2);
    assert_eq!(user.total_referee_discount, 1);
    assert_eq!(user.next_order_id, 2);

    // The market took its share and handed out a trade record id.
    assert_eq!(market.amm.total_fee, 1_030);
    assert_eq!(market.amm.total_fee_minus_distributions, 930);
    assert_eq!(market.amm.net_revenue_since_last_funding, -20);
    assert_eq!(market.next_trade_record_id, 18);

    // The filler got a position in the market with the reward in it.
    let filler = filler.unwrap();
    assert_eq!(
        filler.positions[0],
        MarketPosition {
            market_index: 0,
            base_asset_amount: 0,
            open_orders: 0,
            open_bids: 0,
            open_asks: 0,
            unsettled_pnl: 10,
        }
    );
    assert_eq!(referrer.unwrap().total_referral_reward, 5);

    // The records show the order with the fill booked.
    let trade = filled.trade_record;
    assert_eq!(trade.ts, NOW);
    assert_eq!(trade.record_id, 17);
    assert_eq!(trade.user, TRADER);
    assert_eq!(trade.user_authority, [7u8; 32]);
    assert_eq!(trade.direction, PositionDirection::Long);
    assert_eq!(trade.base_asset_amount, 10 * ONE);
    assert_eq!(trade.quote_asset_amount, 1_000_000);
    assert_eq!(trade.mark_price_before, 1_000);
    assert_eq!(trade.mark_price_after, 1_010);
    assert_eq!(trade.fee, 40);
    assert_eq!(trade.token_discount, 2);
    assert_eq!(trade.referee_discount, 1);
    assert_eq!(trade.quote_asset_amount_surplus, 3);
    assert!(!trade.liquidation);
    assert_eq!(trade.market_index, 0);
    assert_eq!(trade.oracle_price, 1_002);
    let record = filled.order_record;
    assert_eq!(record.action, OrderAction::Fill);
    assert_eq!(record.filler, FILLER);
    assert_eq!(record.trade_record_id, 17);
    assert_eq!(record.base_asset_amount_filled, 10 * ONE);
    assert_eq!(record.quote_asset_amount_filled, 1_000_000);
    assert_eq!(record.filler_reward, 10);
    assert_eq!(record.fee, 40);
    assert_eq!(record.order.status, OrderStatus::Open);
    assert_eq!(record.order.base_asset_amount_filled, 10 * ONE);
    assert_eq!(record.order.quote_asset_amount_filled, 1_000_000);
    assert_eq!(record.order.fee, 40);
    assert_eq!(record.order.order_id, order.order_id);
}

#[test]
fn limit_order_filled_in_part_stays_open() {
    let mut user = User::new([7u8; 32]);
    let mut market = fill_market(ONE);
    let order = place(&mut user, &market, &order_params(OrderType::Limit, 10 * ONE, 105));
    let mut filler = Some(User::new([8u8; 32]));
    let mut referrer = None;
    let pre = pre_fill(10 * ONE, 4 * ONE);

    let asked = fill_order(
        order.order_id,
        &mut user,
        &TRADER,
        &mut market,
        &mut filler,
        &FILLER,
        &mut referrer,
        NOW,
        SLOT,
        &pre,
        None,
    );
    assert_eq!(
        asked,
        Ok(FillStep::NeedsSwap(SwapRequest {
            base_asset_amount: 4 * ONE,
            direction: PositionDirection::Long,
            maker_limit_price: None,
        }))
    );

    let post = post_swap(swap_of(4 * ONE, 400_000, 4 * ONE as i128));
    let done = fill_order(
        order.order_id,
        &mut user,
        &TRADER,
        &mut market,
        &mut filler,
        &FILLER,
        &mut referrer,
        NOW,
        SLOT,
        &pre,
        Some(post),
    );
    match done {
        Ok(FillStep::Filled(filled)) => assert_eq!(filled.base_asset_amount, 4 * ONE),
        other => panic!("not filled: {:?}", other),
    }
    assert_eq!(user.orders[0].status, OrderStatus::Open);
    assert_eq!(user.orders[0].base_asset_amount, 10 * ONE);
    assert_eq!(user.orders[0].base_asset_amount_filled, 4 * ONE);
    assert_eq!(user.orders[0].quote_asset_amount_filled, 400_000);
    assert_eq!(user.orders[0].fee, 40);
    assert_eq!(user.positions[0].open_orders, 1);
    assert_eq!(user.positions[0].open_bids, 6 * ONE as i128);
    assert_eq!(user.positions[0].base_asset_amount, 4 * ONE as i128);
    assert_eq!(referrer, None);

    // A second fill takes the rest; the filled size only grows.
    let pre = pre_fill(6 * ONE, 6 * ONE);
    let post = post_swap(swap_of(6 * ONE, 600_000, 10 * ONE as i128));
    let done = fill_order(
        order.order_id,
        &mut user,
        &TRADER,
        &mut market,
        &mut filler,
        &FILLER,
        &mut referrer,
        NOW + 1,
        SLOT,
        &pre,
        Some(post),
    );
    match done {
        Ok(FillStep::Filled(filled)) => {
            assert_eq!(filled.order_record.order.base_asset_amount_filled, 10 * ONE);
            assert_eq!(filled.order_record.order.quote_asset_amount_filled, 1_000_000);
            assert_eq!(filled.order_record.order.fee, 80);
            assert_eq!(filled.trade_record.record_id, 18);
        }
        other => panic!("not filled: {:?}", other),
    }
    assert_eq!(user.orders[0], Order::default());
    assert_eq!(user.positions[0].open_orders, 0);
    assert_eq!(user.positions[0].open_bids, 0);
    assert_eq!(user.positions[0].unsettled_pnl, -80);
    assert_eq!(filler.unwrap().positions[0].unsettled_pnl, 20);
    assert_eq!(market.next_trade_record_id, 19);
}

#[test]
fn size_below_one_step_is_a_benign_no_op() {
    let mut user = User::new([7u8; 32]);
    user.positions[0].market_index = 0;
    user.positions[0].base_asset_amount = -(3 * ONE as i128) / 10;
    let mut market = fill_market(HALF);
    let mut params = order_params(OrderType::Limit, ONE, 105);
    params.reduce_only = true;
    let order = place(&mut user, &market, &params);
    let mut filler = Some(User::new([8u8; 32]));
    let mut referrer = Some(User::new([6u8; 32]));
    let (user_before, market_before) = (user, market);

    // What can be executed of the order comes to three tenths of a unit,
    // less than the step of half a unit.
    let pre = pre_fill(3 * ONE / 10, 3 * ONE / 10);
    let done = fill_order(
        order.order_id,
        &mut user,
        &TRADER,
        &mut market,
        &mut filler,
        &FILLER,
        &mut referrer,
        NOW,
        SLOT,
        &pre,
        None,
    );
    assert_eq!(done, Ok(FillStep::NotFilled));

    // Nothing at all from one side is no error either.
    for (user_can, market_can) in [(0, ONE), (ONE, 0), (0, 0)] {
        let done = fill_order(
            order.order_id,
            &mut user,
            &TRADER,
            &mut market,
            &mut filler,
            &FILLER,
            &mut referrer,
            NOW,
            SLOT,
            &pre_fill(user_can, market_can),
            Some(post_swap(swap_of(ONE, 1, 0))),
        );
        assert_eq!(done, Ok(FillStep::NotFilled));
    }
    assert_eq!(user, user_before);
    assert_eq!(market, market_before);
    assert_eq!(filler, Some(User::new([8u8; 32])));
    assert_eq!(referrer, Some(User::new([6u8; 32])));
}

#[test]
fn market_order_filled_below_one_step_is_refused() {
    let mut user = User::new([7u8; 32]);
    let mut market = fill_market(ONE);
    let order = place(&mut user, &market, &order_params(OrderType::Market, 2 * ONE, 0));
    let mut filler = Some(User::new([8u8; 32]));
    let mut referrer = None;
    let (user_before, market_before) = (user, market);
    let pre = pre_fill(0, 0);

    let asked = fill_order(
        order.order_id,
        &mut user,
        &TRADER,
        &mut market,
        &mut filler,
        &FILLER,
        &mut referrer,
        NOW,
        SLOT,
        &pre,
        None,
    );
    assert_eq!(
        asked,
        Ok(FillStep::NeedsSwap(SwapRequest {
            base_asset_amount: 2 * ONE,
            direction: PositionDirection::Long,
            maker_limit_price: None,
        }))
    );
    let post = post_swap(swap_of(ONE - 1, 99_999, ONE as i128 - 1));
    let done = fill_order(
        order.order_id,
        &mut user,
        &TRADER,
        &mut market,
        &mut filler,
        &FILLER,
        &mut referrer,
        NOW,
        SLOT,
        &pre,
        Some(post),
    );
    assert_eq!(done, Err(ErrorCode::TradeSizeTooSmall));
    assert_eq!(user, user_before);
    assert_eq!(market, market_before);
    assert_eq!(filler, Some(User::new([8u8; 32])));
}

#[test]
fn fill_that_pushes_the_spread_past_the_limit_is_rejected() {
    let mut user = User::new([7u8; 32]);
    let mut market = fill_market(ONE);
    let order = place(&mut user, &market, &order_params(OrderType::Limit, 10 * ONE, 105));
    let mut filler = Some(User::new([8u8; 32]));
    let mut referrer = Some(User::new([6u8; 32]));
    let (user_before, market_before) = (user, market);
    let pre = pre_fill(10 * ONE, 10 * ONE);

    // Before the fill the spread stands at 10 against a limit of 100.
    let mut post = post_swap(swap_of(10 * ONE, 1_000_000, 10 * ONE as i128));
    post.oracle_mark_spread_pct_after = -101;
    let done = fill_order(
        order.order_id,
        &mut user,
        &TRADER,
        &mut market,
        &mut filler,
        &FILLER,
        &mut referrer,
        NOW,
        SLOT,
        &pre,
        Some(post),
    );
    assert_eq!(done, Err(ErrorCode::OracleMarkSpreadLimit));
    assert_eq!(user, user_before);
    assert_eq!(market, market_before);
    assert_eq!(filler, Some(User::new([8u8; 32])));
    assert_eq!(referrer, Some(User::new([6u8; 32])));

    // At the limit itself the fill goes through.
    post.oracle_mark_spread_pct_after = -100;
    let done = fill_order(
        order.order_id,
        &mut user,
        &TRADER,
        &mut market,
        &mut filler,
        &FILLER,
        &mut referrer,
        NOW,
        SLOT,
        &pre,
        Some(post),
    );
    assert!(matches!(done, Ok(FillStep::Filled(_))));
}

#[test]
fn spread_guard_cases() {
    // Newly beyond the limit, oracle valid: blocked, whatever the risk.
    assert!(is_fill_blocked_by_spread(10, 101, 100, true, false));
    assert!(is_fill_blocked_by_spread(-100, -101, 100, true, false));
    // With an oracle that is not valid nothing is blocked.
    assert!(!is_fill_blocked_by_spread(10, 101, 100, false, true));
    // Within the limit afterwards: not blocked.
    assert!(!is_fill_blocked_by_spread(150, 100, 100, true, true));
    // Beyond the limit before and after: blocked only where the fill was
    // risk-increasing and the spread did not narrow.
    assert!(is_fill_blocked_by_spread(150, 150, 100, true, true));
    assert!(is_fill_blocked_by_spread(150, -151, 100, true, true));
    assert!(!is_fill_blocked_by_spread(150, 149, 100, true, true));
    assert!(!is_fill_blocked_by_spread(150, 151, 100, true, false));
    assert!(is_fill_blocked_by_spread(i128::MIN + 1, i128::MIN, 100, true, true));
}

#[test]
fn fill_needs_an_open_order_in_a_fresh_market() {
    let mut user = User::new([7u8; 32]);
    let mut market = fill_market(ONE);
    let order = place(&mut user, &market, &order_params(OrderType::Limit, 10 * ONE, 105));
    let mut filler = None;
    let mut referrer = None;
    let pre = pre_fill(10 * ONE, 10 * ONE);
    let post = post_swap(swap_of(10 * ONE, 1_000_000, 10 * ONE as i128));
    let (user_before, market_before) = (user, market);

    let unknown = fill_order(
        order.order_id + 1,
        &mut user,
        &TRADER,
        &mut market,
        &mut filler,
        &TRADER,
        &mut referrer,
        NOW,
        SLOT,
        &pre,
        Some(post),
    );
    assert_eq!(unknown, Err(ErrorCode::OrderDoesNotExist));

    let not_open = fill_order(
        0,
        &mut user,
        &TRADER,
        &mut market,
        &mut filler,
        &TRADER,
        &mut referrer,
        NOW,
        SLOT,
        &pre,
        Some(post),
    );
    assert_eq!(not_open, Err(ErrorCode::OrderNotOpen));

    let mut other_market = fill_market(ONE);
    other_market.market_index = 1;
    let wrong_market = fill_order(
        order.order_id,
        &mut user,
        &TRADER,
        &mut other_market,
        &mut filler,
        &TRADER,
        &mut referrer,
        NOW,
        SLOT,
        &pre,
        Some(post),
    );
    assert_eq!(wrong_market, Err(ErrorCode::MarketNotFound));

    let stale = fill_order(
        order.order_id,
        &mut user,
        &TRADER,
        &mut market,
        &mut filler,
        &TRADER,
        &mut referrer,
        NOW,
        SLOT + 1,
        &pre,
        Some(post),
    );
    assert_eq!(stale, Err(ErrorCode::AMMNotUpdatedInSameSlot));
    assert_eq!(user, user_before);
    assert_eq!(market, market_before);

    // A market that does not update its curve is never stale.
    market.amm.curve_update_intensity = 0;
    let done = fill_order(
        order.order_id,
        &mut user,
        &TRADER,
        &mut market,
        &mut filler,
        &TRADER,
        &mut referrer,
        NOW,
        SLOT + 1,
        &pre,
        Some(post),
    );
    assert!(matches!(done, Ok(FillStep::Filled(_))));
}

#[test]
fn trader_filling_the_own_order_earns_no_filler_reward() {
    let mut user = User::new([7u8; 32]);
    let mut market = fill_market(ONE);
    let order = place(&mut user, &market, &order_params(OrderType::Limit, 10 * ONE, 105));
    let bystander = User::new([8u8; 32]);
    let mut filler = Some(bystander);
    let mut referrer = None;
    let done = fill_order(
        order.order_id,
        &mut user,
        &TRADER,
        &mut market,
        &mut filler,
        &TRADER,
        &mut referrer,
        NOW,
        SLOT,
        &pre_fill(10 * ONE, 10 * ONE),
        Some(post_swap(swap_of(10 * ONE, 1_000_000, 10 * ONE as i128))),
    );
    match done {
        Ok(FillStep::Filled(filled)) => assert_eq!(filled.order_record.filler, TRADER),
        other => panic!("not filled: {:?}", other),
    }
    assert_eq!(filler, Some(bystander));
    assert_eq!(user.positions[0].unsettled_pnl, -40);
}

#[test]
fn filler_other_than_the_trader_has_to_be_handed_in() {
    let mut user = User::new([7u8; 32]);
    let mut market = fill_market(ONE);
    let order = place(&mut user, &market, &order_params(OrderType::Limit, 10 * ONE, 105));
    let mut filler = None;
    let mut referrer = None;
    let (user_before, market_before) = (user, market);
    let done = fill_order(
        order.order_id,
        &mut user,
        &TRADER,
        &mut market,
        &mut filler,
        &FILLER,
        &mut referrer,
        NOW,
        SLOT,
        &pre_fill(10 * ONE, 10 * ONE),
        Some(post_swap(swap_of(10 * ONE, 1_000_000, 10 * ONE as i128))),
    );
    assert_eq!(done, Err(ErrorCode::UnableToLoadAccountLoader));
    assert_eq!(user, user_before);
    assert_eq!(market, market_before);
}

#[test]
fn invalid_oracle_does_not_price_the_order_and_lifts_the_spread_guard() {
    let mut user = User::new([7u8; 32]);
    let mut market = fill_market(ONE);
    let mut params = order_params(OrderType::Limit, 10 * ONE, 105);
    params.post_only = true;
    params.oracle_price_offset = 5;
    let placed = place_order(
        &mut user,
        &TRADER,
        &market,
        &params,
        NOW - 10,
        OrderDiscountTier::NoDiscount,
        None,
        Some(OracleReading { price: 1_000, is_valid: true }),
        &PlacementAnswers {
            auction: None,
            validation: Some(Ok(())),
            meets_initial_margin_requirement: Some(true),
        },
    );
    let order = match placed {
        Ok(Placement::Placed(record)) => record.order,
        other => panic!("not placed: {:?}", other),
    };
    let mut filler = None;
    let mut referrer = None;

    // With a valid oracle the maker's price is the oracle price plus 5.
    let mut pre = pre_fill(10 * ONE, 10 * ONE);
    let asked = fill_order(
        order.order_id,
        &mut user,
        &TRADER,
        &mut market,
        &mut filler,
        &TRADER,
        &mut referrer,
        NOW,
        SLOT,
        &pre,
        None,
    );
    assert_eq!(
        asked,
        Ok(FillStep::NeedsSwap(SwapRequest {
            base_asset_amount: 10 * ONE,
            direction: PositionDirection::Long,
            maker_limit_price: Some(1_006),
        }))
    );
    // Without one the post-only order has no price to trade at.
    pre.oracle.is_valid = false;
    let asked = fill_order(
        order.order_id,
        &mut user,
        &TRADER,
        &mut market,
        &mut filler,
        &TRADER,
        &mut referrer,
        NOW,
        SLOT,
        &pre,
        None,
    );
    assert_eq!(asked, Err(ErrorCode::OracleNotFound));
}

#[test]
fn market_order_is_not_filled_beyond_its_size() {
    let mut user = User::new([7u8; 32]);
    let mut market = fill_market(ONE);
    let order = place(&mut user, &market, &order_params(OrderType::Market, 10 * ONE, 0));
    let mut filler = Some(User::new([8u8; 32]));
    let mut referrer = None;
    let (user_before, market_before) = (user, market);
    let pre = pre_fill(0, 0);

    // The curve reports one unit more than the order asked for.
    let post = post_swap(swap_of(11 * ONE, 1_100_000, 11 * ONE as i128));
    let done = fill_order(
        order.order_id,
        &mut user,
        &TRADER,
        &mut market,
        &mut filler,
        &FILLER,
        &mut referrer,
        NOW,
        SLOT,
        &pre,
        Some(post),
    );
    assert_eq!(done, Err(ErrorCode::MathError));
    assert_eq!(user, user_before);
    assert_eq!(market, market_before);
    assert_eq!(filler, Some(User::new([8u8; 32])));

    // What it asked for goes through, and the order leaves the book.
    let post = post_swap(swap_of(10 * ONE, 1_000_000, 10 * ONE as i128));
    let done = fill_order(
        order.order_id,
        &mut user,
        &TRADER,
        &mut market,
        &mut filler,
        &FILLER,
        &mut referrer,
        NOW,
        SLOT,
        &pre,
        Some(post),
    );
    match done {
        Ok(FillStep::Filled(report)) => {
            assert_eq!(report.base_asset_amount, 10 * ONE);
            assert_eq!(report.order_record.order.base_asset_amount_filled, 10 * ONE);
            assert_eq!(report.order_record.order.base_asset_amount, 10 * ONE);
        }
        other => panic!("not filled: {:?}", other),
    }
    assert_eq!(user.orders[0], Order::default());
    assert_eq!(user.positions[0].open_orders, 0);
    assert_eq!(user.positions[0].open_bids, 0);
}

#[test]
fn market_order_without_base_size_cannot_be_filled() {
    let mut user = User::new([7u8; 32]);
    let mut market = fill_market(ONE);
    let mut params = order_params(OrderType::Market, 0, 0);
    params.quote_asset_amount = 1_000_000;
    let order = place(&mut user, &market, &params);
    let mut filler = None;
    let mut referrer = None;
    let (user_before, market_before) = (user, market);
    let pre = pre_fill(0, 0);
    let asked = fill_order(
        order.order_id,
        &mut user,
        &TRADER,
        &mut market,
        &mut filler,
        &TRADER,
        &mut referrer,
        NOW,
        SLOT,
        &pre,
        None,
    );
    assert_eq!(
        asked,
        Ok(FillStep::NeedsSwap(SwapRequest {
            base_asset_amount: 0,
            direction: PositionDirection::Long,
            maker_limit_price: None,
        }))
    );
    for traded in [0, ONE - 1] {
        let post = post_swap(swap_of(traded, 1, traded as i128));
        let done = fill_order(
            order.order_id,
            &mut user,
            &TRADER,
            &mut market,
            &mut filler,
            &TRADER,
            &mut referrer,
            NOW,
            SLOT,
            &pre,
            Some(post),
        );
        assert_eq!(done, Err(ErrorCode::TradeSizeTooSmall));
    }
    let post = post_swap(swap_of(ONE, 100_000, ONE as i128));
    let done = fill_order(
        order.order_id,
        &mut user,
        &TRADER,
        &mut market,
        &mut filler,
        &TRADER,
        &mut referrer,
        NOW,
        SLOT,
        &pre,
        Some(post),
    );
    assert_eq!(done, Err(ErrorCode::MathError));
    assert_eq!(user, user_before);
    assert_eq!(market, market_before);
}
