use clearing_house::cancellation::{
    cancel_order, cancel_order_by_order_id, cancel_order_by_user_order_id, Cancellation,
};
use clearing_house::error::ErrorCode;
use clearing_house::events::OrderAction;
use clearing_house::oracle::OracleReading;
use clearing_house::order::{Order, OrderStatus, OrderType, PositionDirection};
use clearing_house::position::MarketPosition;
use clearing_house::user::User;

fn resting_order(
    order_id: u64,
    user_order_id: u8,
    direction: PositionDirection,
    base_asset_amount: u128,
    filled: u128,
) -> Order {
    Order {
        status: OrderStatus::Open,
        order_type: OrderType::Limit,
        order_id,
        user_order_id,
        market_index: 2,
        direction,
        base_asset_amount,
        base_asset_amount_filled: filled,
        price: 100,
        ..Order::default()
    }
}

fn account_with_two_orders() -> User {
    let mut user = User::new([7u8; 32]);
    user.next_order_id = 3;
    user.orders[0] = resting_order(1, 11, PositionDirection::Long, 1_000, 400);
    user.orders[1] = resting_order(2, 0, PositionDirection::Short, 500, 0);
    user.positions[0] = MarketPosition {
        market_index: 2,
        base_asset_amount: 400,
        open_orders: 2,
        open_bids: 600,
        open_asks: -500,
        unsettled_pnl: -3,
    };
    user
}

#[test]
fn cancelling_takes_the_unfilled_size_off_the_book() {
    let mut user = account_with_two_orders();
    let order = user.orders[0];
    let done = cancel_order(0, &mut user, &[1u8; 32], 77, None, Some(Ok(())), false);
    let record = match done {
        Ok(Cancellation::Cancelled(record)) => record,
        other => panic!("not cancelled: {:?}", other),
    };
    assert_eq!(record.order, order);
    assert_eq!(record.action, OrderAction::Cancel);
    assert_eq!(record.ts, 77);
    assert_eq!(record.user, [1u8; 32]);
    assert_eq!(record.authority, [7u8; 32]);
    assert_eq!(record.filler, [0u8; 32]);
    assert_eq!(record.base_asset_amount_filled, 0);
    assert_eq!(user.orders[0], Order::default());
    assert_eq!(user.orders[0].status, OrderStatus::Init);
    assert_eq!(user.orders[1], account_with_two_orders().orders[1]);
    assert_eq!(
        user.positions[0],
        MarketPosition {
            market_index: 2,
            base_asset_amount: 400,
            open_orders: 1,
            open_bids: 0,
            open_asks: -500,
            unsettled_pnl: -3,
        }
    );

    let done = cancel_order(1, &mut user, &[1u8; 32], 78, None, Some(Ok(())), false);
    assert!(matches!(done, Ok(Cancellation::Cancelled(_))));
    assert_eq!(user.positions[0].open_orders, 0);
    assert_eq!(user.positions[0].open_asks, 0);
}

#[test]
fn cancelling_a_slot_without_open_order_fails_and_changes_nothing() {
    let mut user = account_with_two_orders();
    let before = user;
    assert_eq!(
        cancel_order(5, &mut user, &[1u8; 32], 77, None, Some(Ok(())), false),
        Err(ErrorCode::OrderNotOpen)
    );
    assert_eq!(
        cancel_order(5, &mut user, &[1u8; 32], 77, None, Some(Ok(())), true),
        Err(ErrorCode::OrderNotOpen)
    );
    assert_eq!(
        cancel_order(5, &mut user, &[1u8; 32], 77, None, None, true),
        Err(ErrorCode::OrderNotOpen)
    );
    assert_eq!(user, before);
}

#[test]
fn cancellation_asks_for_the_cancel_check_first() {
    let mut user = account_with_two_orders();
    let before = user;
    let asked = cancel_order(
        0,
        &mut user,
        &[1u8; 32],
        77,
        Some(OracleReading { price: 123, is_valid: true }),
        None,
        false,
    );
    assert_eq!(asked, Ok(Cancellation::NeedsCancelCheck { valid_oracle_price: Some(123) }));
    let asked = cancel_order(
        0,
        &mut user,
        &[1u8; 32],
        77,
        Some(OracleReading { price: 123, is_valid: false }),
        None,
        true,
    );
    assert_eq!(asked, Ok(Cancellation::NeedsCancelCheck { valid_oracle_price: None }));
    assert_eq!(user, before);
}

#[test]
fn best_effort_cancellation_keeps_a_protected_order_silently() {
    let mut user = account_with_two_orders();
    let before = user;
    let kept = cancel_order(
        0,
        &mut user,
        &[1u8; 32],
        77,
        None,
        Some(Err(ErrorCode::CantCancelPostOnlyOrder)),
        true,
    );
    assert_eq!(kept, Ok(Cancellation::Kept));
    assert_eq!(user, before);
}

#[test]
fn strict_cancellation_passes_the_objection_on() {
    let mut user = account_with_two_orders();
    let before = user;
    let refused = cancel_order(
        0,
        &mut user,
        &[1u8; 32],
        77,
        None,
        Some(Err(ErrorCode::CantCancelPostOnlyOrder)),
        false,
    );
    assert_eq!(refused, Err(ErrorCode::CantCancelPostOnlyOrder));
    assert_eq!(user, before);
}

#[test]
fn cancelling_an_oracle_relative_order_needs_the_oracle() {
    let mut user = account_with_two_orders();
    user.orders[0].oracle_price_offset = 10;
    let before = user;
    assert_eq!(
        cancel_order(0, &mut user, &[1u8; 32], 77, None, Some(Ok(())), false),
        Err(ErrorCode::OracleNotFound)
    );
    assert_eq!(
        cancel_order(
            0,
            &mut user,
            &[1u8; 32],
            77,
            Some(OracleReading { price: 5, is_valid: false }),
            Some(Ok(())),
            true,
        ),
        Err(ErrorCode::InvalidOracle)
    );
    assert_eq!(user, before);
}

#[test]
fn cancelling_without_position_in_the_market_fails() {
    let mut user = account_with_two_orders();
    user.positions[0].market_index = 3;
    let before = user;
    assert_eq!(
        cancel_order(0, &mut user, &[1u8; 32], 77, None, Some(Ok(())), false),
        Err(ErrorCode::UserHasNoPositionInMarket)
    );
    assert_eq!(user, before);
}

#[test]
fn cancelling_an_overfilled_order_is_a_math_error() {
    let mut user = account_with_two_orders();
    user.orders[0].base_asset_amount_filled = 1_001;
    let before = user;
    assert_eq!(
        cancel_order(0, &mut user, &[1u8; 32], 77, None, Some(Ok(())), false),
        Err(ErrorCode::MathError)
    );
    assert_eq!(user, before);
}

#[test]
fn cancelling_with_a_count_of_zero_is_a_math_error() {
    let mut user = account_with_two_orders();
    user.positions[0].open_orders = 0;
    let before = user;
    assert_eq!(
        cancel_order(0, &mut user, &[1u8; 32], 77, None, Some(Ok(())), false),
        Err(ErrorCode::MathError)
    );
    assert_eq!(user, before);
}

#[test]
fn order_sized_in_quote_leaves_open_interest_alone() {
    let mut user = account_with_two_orders();
    user.orders[0].base_asset_amount = 0;
    user.orders[0].base_asset_amount_filled = 0;
    user.orders[0].quote_asset_amount = 900;
    let done = cancel_order(0, &mut user, &[1u8; 32], 77, None, Some(Ok(())), false);
    assert!(matches!(done, Ok(Cancellation::Cancelled(_))));
    assert_eq!(user.positions[0].open_bids, 600);
    assert_eq!(user.positions[0].open_orders, 1);
}

#[test]
fn cancel_by_order_id_finds_the_order() {
    let mut user = account_with_two_orders();
    let done = cancel_order_by_order_id(2, &mut user, &[1u8; 32], 77, None, Some(Ok(())));
    assert!(matches!(done, Ok(Cancellation::Cancelled(_))));
    assert_eq!(user.orders[1], Order::default());
    assert_eq!(user.orders[0].order_id, 1);
    assert_eq!(user.positions[0].open_asks, 0);
    assert_eq!(user.positions[0].open_orders, 1);

    let before = user;
    assert_eq!(
        cancel_order_by_order_id(2, &mut user, &[1u8; 32], 77, None, Some(Ok(()))),
        Err(ErrorCode::OrderDoesNotExist)
    );
    // The id of an empty slot names a slot, but no open order.
    assert_eq!(
        cancel_order_by_order_id(0, &mut user, &[1u8; 32], 77, None, Some(Ok(()))),
        Err(ErrorCode::OrderNotOpen)
    );
    assert_eq!(user, before);
}

#[test]
fn cancel_by_order_id_is_never_best_effort() {
    let mut user = account_with_two_orders();
    assert_eq!(
        cancel_order_by_order_id(
            1,
            &mut user,
            &[1u8; 32],
            77,
            None,
            Some(Err(ErrorCode::CantCancelPostOnlyOrder)),
        ),
        Err(ErrorCode::CantCancelPostOnlyOrder)
    );
    assert_eq!(
        cancel_order_by_user_order_id(
            11,
            &mut user,
            &[1u8; 32],
            77,
            None,
            Some(Err(ErrorCode::CantCancelPostOnlyOrder)),
        ),
        Err(ErrorCode::CantCancelPostOnlyOrder)
    );
}

#[test]
fn cancel_by_user_order_id_finds_the_order() {
    let mut user = account_with_two_orders();
    let done = cancel_order_by_user_order_id(11, &mut user, &[1u8; 32], 77, None, Some(Ok(())));
    match done {
        Ok(Cancellation::Cancelled(record)) => assert_eq!(record.order.order_id, 1),
        other => panic!("not cancelled: {:?}", other),
    }
    assert_eq!(user.orders[0], Order::default());
    assert_eq!(
        cancel_order_by_user_order_id(11, &mut user, &[1u8; 32], 77, None, Some(Ok(()))),
        Err(ErrorCode::OrderDoesNotExist)
    );
}

#[test]
fn cancel_by_user_order_id_zero_takes_the_first_slot_with_no_id() {
    // Slot 0 is empty again and carries no id of the trader's choosing: it
    // is the first match, and holds no open order.
    let mut user = account_with_two_orders();
    user.orders[0] = Order::default();
    assert_eq!(
        cancel_order_by_user_order_id(0, &mut user, &[1u8; 32], 77, None, Some(Ok(()))),
        Err(ErrorCode::OrderNotOpen)
    );
}
