//! Cancelling orders: at the trader's request, by slot, by order id or by
//! the id the trader chose, and as a best effort when the exchange cleans up.

use crate::error::ErrorCode;
use crate::events::{OrderAction, OrderRecord};
use crate::oracle::{get_valid_oracle_price, valid_oracle_price, OracleReading};
use crate::order::{Order, OrderStatus, Pubkey};
use crate::position::{decrease_open_bids_and_asks, get_position_index, position_index};
use crate::user::{lemma_open_order_is_counted, lemma_order_removed_keeps_wf, User};
use vstd::prelude::*;

verus! {

/// How far a cancellation got.
#[derive(Clone, Copy, Debug, PartialEq, Eq)]
pub enum Cancellation {
    /// The check whether the order may be cancelled now, given the oracle
    /// price resolved for it, is needed first.
    NeedsCancelCheck { valid_oracle_price: Option<i128> },
    /// The order may not be cancelled yet; a best-effort cancellation
    /// leaves it where it is.
    Kept,
    Cancelled(OrderRecord),
}

/// What cancelling the order in slot `order_index` comes to.
///
/// The slot has to hold an open order (`OrderNotOpen`), and the oracle
/// price has to resolve for it. The check whether the order may be
/// cancelled is then needed. Where the check objects, a best-effort
/// cancellation keeps the order and reports success, and any other
/// cancellation fails with the objection. Otherwise the order leaves the
/// book: its unfilled size comes off the open interest of its position, if
/// it names a base size; the position counts one open order less; the slot
/// is empty again.
pub open spec fn cancellation(
    order_index: int,
    user: User,
    user_key: Pubkey,
    now: i64,
    oracle: Option<OracleReading>,
    cancel_check: Option<Result<(), ErrorCode>>,
    best_effort: bool,
) -> Result<(User, Cancellation), ErrorCode> {
    let order = user.orders[order_index];
    if user.open_order_at(order_index) is Err {
        Err(ErrorCode::OrderNotOpen)
    } else {
        match valid_oracle_price(oracle, order) {
            Err(e) => Err(e),
            Ok(valid_oracle_price) => match cancel_check {
                None => Ok((user, Cancellation::NeedsCancelCheck { valid_oracle_price })),
                Some(Err(e)) => if best_effort {
                    Ok((user, Cancellation::Kept))
                } else {
                    Err(e)
                },
                Some(Ok(_)) => match position_index(user.positions@, order.market_index) {
                    None => Err(ErrorCode::UserHasNoPositionInMarket),
                    Some(p) => match order.base_asset_amount_unfilled() {
                        Err(e) => Err(e),
                        Ok(unfilled) => match (if order.base_asset_amount != 0 {
                            user.positions[p].with_less_open(order.direction, unfilled)
                        } else {
                            Ok(user.positions[p])
                        }) {
                            Err(e) => Err(e),
                            Ok(released) => match released.with_order_closed() {
                                Err(e) => Err(e),
                                Ok(position) => Ok(
                                    (
                                        user.with_position(p, position).with_order(
                                            order_index,
                                            Order::empty(),
                                        ),
                                        Cancellation::Cancelled(
                                            OrderRecord::unfilled(
                                                now,
                                                order,
                                                user_key,
                                                user.authority,
                                                OrderAction::Cancel,
                                            ),
                                        ),
                                    ),
                                ),
                            },
                        },
                    },
                },
            },
        }
    }
}

/// Cancels the order in slot `order_index` of a trader whose funding is
/// settled.
///
/// The account changes only together with `Cancelled`. An order that is
/// not open is refused with `OrderNotOpen` and nothing is changed.
pub fn cancel_order(
    order_index: usize,
    user: &mut User,
    user_key: &Pubkey,
    now: i64,
    oracle: Option<OracleReading>,
    cancel_check: Option<Result<(), ErrorCode>>,
    best_effort: bool,
) -> (r: Result<Cancellation, ErrorCode>)
    requires
        order_index < 32,
    ensures
        match cancellation(
            order_index as int,
            *old(user),
            *user_key,
            now,
            oracle,
            cancel_check,
            best_effort,
        ) {
            Ok((after, step)) => r == Ok::<Cancellation, ErrorCode>(step) && *final(user) == after,
            Err(e) => r == Err::<Cancellation, ErrorCode>(e) && *final(user) == *old(user),
        },
        old(user).orders[order_index as int].status != OrderStatus::Open ==> r == Err::<
            Cancellation,
            ErrorCode,
        >(ErrorCode::OrderNotOpen) && *final(user) == *old(user),
        !(r matches Ok(Cancellation::Cancelled(_))) ==> *final(user) == *old(user),
        old(user).wf() ==> final(user).wf(),
{
    proof {
        if user.wf() {
            lemma_cancellation_keeps_wf(
                order_index as int,
                *user,
                *user_key,
                now,
                oracle,
                cancel_check,
                best_effort,
            );
        }
    }
    let order = user.get_open_order(order_index)?;
    let valid_oracle_price = get_valid_oracle_price(oracle, &order)?;
    match cancel_check {
        None => { return Ok(Cancellation::NeedsCancelCheck { valid_oracle_price }); },
        Some(Err(e)) => {
            if best_effort {
                return Ok(Cancellation::Kept);
            } else {
                return Err(e);
            }
        },
        Some(Ok(_)) => {},
    }
    let record = OrderRecord::new_unfilled(
        now,
        order,
        *user_key,
        user.authority,
        OrderAction::Cancel,
    );
    let position_index = get_position_index(&user.positions, order.market_index)?;
    let base_asset_amount_unfilled = order.get_base_asset_amount_unfilled()?;
    let mut position = user.positions[position_index];
    if order.base_asset_amount != 0 {
        decrease_open_bids_and_asks(&mut position, order.direction, base_asset_amount_unfilled)?;
    }
    position.open_orders = match position.open_orders.checked_sub(1) {
        Some(count) => count,
        None => { return Err(ErrorCode::MathError); },
    };
    user.positions[position_index] = position;
    user.orders[order_index] = Order::default();
    Ok(Cancellation::Cancelled(record))
}

/// What cancelling the order with id `order_id` comes to: the first slot
/// whose order carries the id is cancelled, not as a best effort
/// (`OrderDoesNotExist` where no slot does).
pub open spec fn cancellation_by_order_id(
    order_id: u64,
    user: User,
    user_key: Pubkey,
    now: i64,
    oracle: Option<OracleReading>,
    cancel_check: Option<Result<(), ErrorCode>>,
) -> Result<(User, Cancellation), ErrorCode> {
    match user.order_index_by_id(order_id) {
        None => Err(ErrorCode::OrderDoesNotExist),
        Some(i) => cancellation(i, user, user_key, now, oracle, cancel_check, false),
    }
}

/// Cancels an order at the trader's request, found by its id.
pub fn cancel_order_by_order_id(
    order_id: u64,
    user: &mut User,
    user_key: &Pubkey,
    now: i64,
    oracle: Option<OracleReading>,
    cancel_check: Option<Result<(), ErrorCode>>,
) -> (r: Result<Cancellation, ErrorCode>)
    ensures
        match cancellation_by_order_id(order_id, *old(user), *user_key, now, oracle, cancel_check) {
            Ok((after, step)) => r == Ok::<Cancellation, ErrorCode>(step) && *final(user) == after,
            Err(e) => r == Err::<Cancellation, ErrorCode>(e) && *final(user) == *old(user),
        },
        !(r matches Ok(Cancellation::Cancelled(_))) ==> *final(user) == *old(user),
        old(user).wf() ==> final(user).wf(),
{
    let order_index = match user.find_order_by_id(order_id) {
        Some(i) => i,
        None => { return Err(ErrorCode::OrderDoesNotExist); },
    };
    cancel_order(order_index, user, user_key, now, oracle, cancel_check, false)
}

/// What cancelling the order with the trader-chosen id `user_order_id`
/// comes to: the first slot whose order carries the id is cancelled, not as
/// a best effort (`OrderDoesNotExist` where no slot does).
pub open spec fn cancellation_by_user_order_id(
    user_order_id: u8,
    user: User,
    user_key: Pubkey,
    now: i64,
    oracle: Option<OracleReading>,
    cancel_check: Option<Result<(), ErrorCode>>,
) -> Result<(User, Cancellation), ErrorCode> {
    match user.order_index_by_user_order_id(user_order_id) {
        None => Err(ErrorCode::OrderDoesNotExist),
        Some(i) => cancellation(i, user, user_key, now, oracle, cancel_check, false),
    }
}

/// Cancels an order at the trader's request, found by the id the trader
/// chose for it.
pub fn cancel_order_by_user_order_id(
    user_order_id: u8,
    user: &mut User,
    user_key: &Pubkey,
    now: i64,
    oracle: Option<OracleReading>,
    cancel_check: Option<Result<(), ErrorCode>>,
) -> (r: Result<Cancellation, ErrorCode>)
    ensures
        match cancellation_by_user_order_id(
            user_order_id,
            *old(user),
            *user_key,
            now,
            oracle,
            cancel_check,
        ) {
            Ok((after, step)) => r == Ok::<Cancellation, ErrorCode>(step) && *final(user) == after,
            Err(e) => r == Err::<Cancellation, ErrorCode>(e) && *final(user) == *old(user),
        },
        !(r matches Ok(Cancellation::Cancelled(_))) ==> *final(user) == *old(user),
        old(user).wf() ==> final(user).wf(),
{
    let order_index = match user.find_order_by_user_order_id(user_order_id) {
        Some(i) => i,
        None => { return Err(ErrorCode::OrderDoesNotExist); },
    };
    cancel_order(order_index, user, user_key, now, oracle, cancel_check, false)
}

/// Cancelling an order keeps an account one the engine could have produced.
pub proof fn lemma_cancellation_keeps_wf(
    order_index: int,
    user: User,
    user_key: Pubkey,
    now: i64,
    oracle: Option<OracleReading>,
    cancel_check: Option<Result<(), ErrorCode>>,
    best_effort: bool,
)
    requires
        user.wf(),
        0 <= order_index < 32,
    ensures
        cancellation(order_index, user, user_key, now, oracle, cancel_check, best_effort)
            matches Ok((after, _)) ==> after.wf(),
{
    let outcome = cancellation(
        order_index,
        user,
        user_key,
        now,
        oracle,
        cancel_check,
        best_effort,
    );
    if outcome matches Ok((_, Cancellation::Cancelled(_))) {
        let after = outcome->Ok_0.0;
        let order = user.orders[order_index];
        lemma_open_order_is_counted(user, order_index);
        let p = position_index(user.positions@, order.market_index)->Some_0;
        lemma_order_removed_keeps_wf(user, order_index, p, after.positions[p]);
        assert(after.positions =~= user.with_position(p, after.positions[p]).positions);
    }
}

/// In an account that the engine could have produced, cancelling an open
/// order takes exactly one order out of the count of its market's position
/// and leaves every other count alone.
pub proof fn lemma_cancellation_counts_one_order_out(
    order_index: int,
    user: User,
    user_key: Pubkey,
    now: i64,
    oracle: Option<OracleReading>,
    cancel_check: Option<Result<(), ErrorCode>>,
    best_effort: bool,
)
    requires
        user.wf(),
        0 <= order_index < 32,
        cancellation(order_index, user, user_key, now, oracle, cancel_check, best_effort)
            matches Ok((_, Cancellation::Cancelled(_))),
    ensures
        ({
            let after = cancellation(
                order_index,
                user,
                user_key,
                now,
                oracle,
                cancel_check,
                best_effort,
            )->Ok_0.0;
            let p = position_index(user.positions@, user.orders[order_index].market_index)->Some_0;
            &&& 0 <= p < 5
            &&& after.orders[order_index] == Order::empty()
            &&& after.positions[p].open_orders + 1 == user.positions[p].open_orders
            &&& forall|q: int|
                0 <= q < 5 && q != p ==> (#[trigger] after.positions[q]) == user.positions[q]
        }),
{
    lemma_open_order_is_counted(user, order_index);
}

} // verus!
