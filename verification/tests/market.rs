use clearing_house::error::ErrorCode;
use clearing_house::market::{Amm, Market};
use clearing_house::order::{Order, OrderStatus};
use clearing_house::user::User;

fn quiet_market() -> Market {
    Market {
        market_index: 2,
        next_trade_record_id: 40,
        amm: Amm {
            oracle: [9u8; 32],
            base_asset_amount_step_size: 10,
            total_fee: 100,
            total_fee_minus_distributions: 60,
            net_revenue_since_last_funding: -5,
            last_update_slot: 77,
            curve_update_intensity: 1,
            last_oracle_mark_spread_pct: 0,
        },
    }
}

#[test]
fn fee_is_credited_to_all_three_counters() {
    let mut market = quiet_market();
    assert_eq!(market.collect_fee(25), Ok(()));
    assert_eq!(market.amm.total_fee, 125);
    assert_eq!(market.amm.total_fee_minus_distributions, 85);
    assert_eq!(market.amm.net_revenue_since_last_funding, 20);
    assert_eq!(market.collect_fee(-30), Ok(()));
    assert_eq!(market.amm.total_fee, 95);
    assert_eq!(market.amm.total_fee_minus_distributions, 55);
    assert_eq!(market.amm.net_revenue_since_last_funding, -10);
}

#[test]
fn fee_that_a_counter_cannot_hold_is_refused_unchanged() {
    let mut market = quiet_market();
    let before = market;
    assert_eq!(market.collect_fee(i128::MAX), Err(ErrorCode::MathError));
    assert_eq!(market.collect_fee(i64::MAX as i128 + 1), Err(ErrorCode::MathError));
    assert_eq!(market.collect_fee(i64::MIN as i128 - 1), Err(ErrorCode::MathError));
    assert_eq!(market.collect_fee(i64::MIN as i128), Err(ErrorCode::MathError));
    assert_eq!(market, before);
    market.amm.net_revenue_since_last_funding = 0;
    assert_eq!(market.collect_fee(i64::MAX as i128), Ok(()));
    assert_eq!(market.amm.net_revenue_since_last_funding, i64::MAX);
    market.amm.total_fee_minus_distributions = i128::MAX;
    let before = market;
    assert_eq!(market.collect_fee(1), Err(ErrorCode::MathError));
    assert_eq!(market, before);
}

#[test]
fn trade_record_ids_are_handed_out_in_sequence() {
    let mut market = quiet_market();
    assert_eq!(market.take_trade_record_id(), Ok(40));
    assert_eq!(market.take_trade_record_id(), Ok(41));
    assert_eq!(market.next_trade_record_id, 42);
    market.next_trade_record_id = u64::MAX;
    assert_eq!(market.take_trade_record_id(), Err(ErrorCode::MathError));
    assert_eq!(market.next_trade_record_id, u64::MAX);
}

#[test]
fn curve_is_fresh_in_the_slot_of_its_last_update_only() {
    let mut market = quiet_market();
    assert!(market.is_fresh_in(77));
    assert!(!market.is_fresh_in(76));
    assert!(!market.is_fresh_in(78));
    market.amm.curve_update_intensity = 0;
    assert!(market.is_fresh_in(78));
}

#[test]
fn open_orders_are_found_by_slot_and_by_id() {
    let mut user = User::new([7u8; 32]);
    user.orders[3] = Order { status: OrderStatus::Open, order_id: 12, ..Order::default() };
    user.orders[5] = Order { status: OrderStatus::Init, order_id: 13, ..Order::default() };
    assert_eq!(user.get_open_order(3), Ok(user.orders[3]));
    assert_eq!(user.get_open_order(4), Err(ErrorCode::OrderNotOpen));
    assert_eq!(user.find_open_order_by_id(12), Ok(3));
    assert_eq!(user.find_open_order_by_id(13), Err(ErrorCode::OrderNotOpen));
    assert_eq!(user.find_open_order_by_id(14), Err(ErrorCode::OrderDoesNotExist));
    assert_eq!(user.find_open_order_by_id(0), Err(ErrorCode::OrderNotOpen));
}
