//! The two ways of executing an order: a market order trades at once and in
//! full against the price curve; every other order trades what both the
//! trader and the market can execute.
//!
//! The swap itself is not the engine's to make. An execution first says what
//! is to be swapped, and is completed once it is told what came of the swap.

use crate::error::ErrorCode;
use crate::market::Market;
use crate::math::{magnitude, min_amount, smaller, unsigned_abs};
use crate::order::{Order, OrderStatus, OrderType, PositionDirection};
use crate::position::{
    get_position_index, lemma_position_index_kept, position_index, MarketPosition,
};
use crate::user::{lemma_open_order_is_counted, lemma_position_rewritten_keeps_wf, User};
use vstd::prelude::*;

verus! {

/// What the engine asks of the market's price curve: to trade a base size
/// in a direction.
///
/// `maker_limit_price` is set for a post-only order: the order's own limit
/// price is then the clearing price, and the curve is not swept.
#[derive(Clone, Copy, Debug, PartialEq, Eq)]
pub struct SwapRequest {
    pub base_asset_amount: u128,
    pub direction: PositionDirection,
    pub maker_limit_price: Option<u128>,
}

/// What came of applying a swap to the trader's position.
#[derive(Clone, Copy, Debug, PartialEq, Eq)]
pub struct SwapOutcome {
    /// Whether the trade opened, grew or flipped the position.
    pub potentially_risk_increasing: bool,
    /// Whether the trade only reduced the position.
    pub reduce_only: bool,
    pub base_asset_amount: u128,
    pub quote_asset_amount: u128,
    /// Quote amount left over from price impact.
    pub quote_asset_amount_surplus: u128,
    /// Profit or loss the trade realised.
    pub pnl: i128,
    /// The position's net size once the trade was applied.
    pub position_base_asset_amount: i128,
    /// Whether the average price of the trade is within the order's limit
    /// price. Read only for a market order that sets a limit price.
    pub limit_price_satisfied: bool,
}

/// What one execution of an order moved. All zero where nothing was filled.
#[derive(Clone, Copy, Debug, PartialEq, Eq)]
pub struct Execution {
    pub base_asset_amount: u128,
    pub quote_asset_amount: u128,
    pub potentially_risk_increasing: bool,
    pub quote_asset_amount_surplus: u128,
}

impl Execution {
    /// The execution that fills nothing.
    pub open spec fn nothing() -> Execution {
        Execution {
            base_asset_amount: 0,
            quote_asset_amount: 0,
            potentially_risk_increasing: false,
            quote_asset_amount_surplus: 0,
        }
    }

    /// The execution that fills nothing.
    pub fn none() -> (r: Execution)
        ensures
            r == Execution::nothing(),
    {
        Execution {
            base_asset_amount: 0,
            quote_asset_amount: 0,
            potentially_risk_increasing: false,
            quote_asset_amount_surplus: 0,
        }
    }
}

/// How far an execution got: it either needs the outcome of a swap that
/// only the market's price curve can give, or it is done.
#[derive(Clone, Copy, Debug, PartialEq, Eq)]
pub enum ExecutionStep {
    NeedsSwap(SwapRequest),
    Executed(Execution),
}

/// How much of an order may be filled as far as the trader's margin and as
/// far as the market's conditions allow.
#[derive(Clone, Copy, Debug, PartialEq, Eq)]
pub struct Capacity {
    pub user_can_execute: u128,
    pub market_can_execute: u128,
}

/// Whether an order in `direction` runs against a position of net size
/// `existing_position`: it buys against a short one or sells against a long one.
pub open spec fn opposes(direction: PositionDirection, existing_position: i128) -> bool {
    match direction {
        PositionDirection::Long => existing_position < 0,
        PositionDirection::Short => existing_position > 0,
    }
}

/// The size a reduce-only order trades: where it runs against the position,
/// no more than closes it; otherwise the size it asks for.
pub open spec fn reduce_only_size(
    proposed_base_asset_amount: u128,
    direction: PositionDirection,
    existing_position: i128,
) -> u128 {
    if opposes(direction, existing_position) && magnitude(existing_position as int)
        < proposed_base_asset_amount {
        magnitude(existing_position as int) as u128
    } else {
        proposed_base_asset_amount
    }
}

/// Clamps the size of a reduce-only order so that it cannot carry the
/// position through zero.
pub fn calculate_base_asset_amount_for_reduce_only_order(
    proposed_base_asset_amount: u128,
    order_direction: PositionDirection,
    existing_position: i128,
) -> (r: u128)
    ensures
        r == reduce_only_size(proposed_base_asset_amount, order_direction, existing_position),
        r <= proposed_base_asset_amount,
        opposes(order_direction, existing_position) ==> r <= magnitude(existing_position as int),
{
    let against = match order_direction {
        PositionDirection::Long => existing_position < 0,
        PositionDirection::Short => existing_position > 0,
    };
    if against {
        min_amount(proposed_base_asset_amount, unsigned_abs(existing_position))
    } else {
        proposed_base_asset_amount
    }
}

/// The position once a swap was applied to it: at the net size the swap
/// left it, with the realised profit or loss added to what is unsettled.
pub open spec fn position_after_swap(position: MarketPosition, outcome: SwapOutcome) -> Result<
    MarketPosition,
    ErrorCode,
> {
    MarketPosition {
        base_asset_amount: outcome.position_base_asset_amount,
        ..position
    }.with_pnl(outcome.pnl)
}

/// The size a market order asks the curve for: its full base size, clamped
/// for a reduce-only order. An order that names no base size asks for none.
pub open spec fn market_order_size(user: User, order_index: int, p: int) -> u128 {
    let order = user.orders[order_index];
    if order.reduce_only {
        reduce_only_size(
            order.base_asset_amount,
            order.direction,
            user.positions[p].base_asset_amount,
        )
    } else {
        order.base_asset_amount
    }
}

/// What executing a market order comes to.
///
/// The order trades its full base size, clamped for a reduce-only order.
/// Without the outcome of that swap the step is to ask for it. With it: the
/// position takes the swap, and the execution is refused where the size
/// traded is below the market's step (`TradeSizeTooSmall`), where a
/// reduce-only order did more than reduce (`ReduceOnlyOrderIncreasedRisk`),
/// or where the order sets a limit price that the trade did not keep
/// (`SlippageOutsideLimit`).
///
/// The size that the execution reports is the size that the curve traded.
/// Whether the order has room for it is found when the fill is booked: the
/// filled size of an order never goes beyond the order's size. An order
/// that names a quote size and no base size therefore cannot be filled.
pub open spec fn market_order_step(
    user: User,
    order_index: int,
    market: Market,
    swap: Option<SwapOutcome>,
) -> Result<(User, ExecutionStep), ErrorCode> {
    let order = user.orders[order_index];
    match position_index(user.positions@, market.market_index) {
        None => Err(ErrorCode::UserHasNoPositionInMarket),
        Some(p) => {
            let request = SwapRequest {
                base_asset_amount: market_order_size(user, order_index, p),
                direction: order.direction,
                maker_limit_price: None,
            };
            match swap {
                None => Ok((user, ExecutionStep::NeedsSwap(request))),
                Some(outcome) => match position_after_swap(user.positions[p], outcome) {
                    Err(e) => Err(e),
                    Ok(position) => if outcome.base_asset_amount
                        < market.amm.base_asset_amount_step_size {
                        Err(ErrorCode::TradeSizeTooSmall)
                    } else if !outcome.reduce_only && order.reduce_only {
                        Err(ErrorCode::ReduceOnlyOrderIncreasedRisk)
                    } else if order.price > 0 && !outcome.limit_price_satisfied {
                        Err(ErrorCode::SlippageOutsideLimit)
                    } else {
                        Ok(
                            (
                                user.with_position(p, position),
                                ExecutionStep::Executed(
                                    Execution {
                                        base_asset_amount: outcome.base_asset_amount,
                                        quote_asset_amount: outcome.quote_asset_amount,
                                        potentially_risk_increasing: outcome.potentially_risk_increasing,
                                        quote_asset_amount_surplus: outcome.quote_asset_amount_surplus,
                                    },
                                ),
                            ),
                        )
                    },
                },
            }
        },
    }
}

/// Executes a market order: immediately, at full size, against the curve.
///
/// The trader's account changes only where the result is `Executed`.
pub fn execute_market_order(
    user: &mut User,
    order_index: usize,
    market: &Market,
    swap: Option<SwapOutcome>,
) -> (r: Result<ExecutionStep, ErrorCode>)
    requires
        order_index < 32,
    ensures
        match market_order_step(*old(user), order_index as int, *market, swap) {
            Ok((after, step)) => r == Ok::<ExecutionStep, ErrorCode>(step) && *final(user) == after,
            Err(e) => r == Err::<ExecutionStep, ErrorCode>(e) && *final(user) == *old(user),
        },
        old(user).wf() && is_open_in_market(*old(user), order_index as int, *market)
            ==> final(user).wf(),
{
    proof {
        if user.wf() && is_open_in_market(*user, order_index as int, *market) {
            lemma_market_order_step_keeps_wf(*user, order_index as int, *market, swap);
        }
    }
    let position_index = get_position_index(&user.positions, market.market_index)?;
    let order = user.orders[order_index];
    let base_asset_amount = if order.reduce_only {
        calculate_base_asset_amount_for_reduce_only_order(
            order.base_asset_amount,
            order.direction,
            user.positions[position_index].base_asset_amount,
        )
    } else {
        order.base_asset_amount
    };
    let request = SwapRequest {
        base_asset_amount,
        direction: order.direction,
        maker_limit_price: None,
    };
    let outcome = match swap {
        None => { return Ok(ExecutionStep::NeedsSwap(request)); },
        Some(outcome) => outcome,
    };
    let position = apply_swap(&user.positions[position_index], &outcome)?;
    if outcome.base_asset_amount < market.amm.base_asset_amount_step_size {
        return Err(ErrorCode::TradeSizeTooSmall);
    }
    if !outcome.reduce_only && order.reduce_only {
        return Err(ErrorCode::ReduceOnlyOrderIncreasedRisk);
    }
    if order.price > 0 && !outcome.limit_price_satisfied {
        return Err(ErrorCode::SlippageOutsideLimit);
    }
    user.positions[position_index] = position;
    Ok(
        ExecutionStep::Executed(
            Execution {
                base_asset_amount: outcome.base_asset_amount,
                quote_asset_amount: outcome.quote_asset_amount,
                potentially_risk_increasing: outcome.potentially_risk_increasing,
                quote_asset_amount_surplus: outcome.quote_asset_amount_surplus,
            },
        ),
    )
}

/// Takes a swap into a position.
pub fn apply_swap(position: &MarketPosition, outcome: &SwapOutcome) -> (r: Result<
    MarketPosition,
    ErrorCode,
>)
    ensures
        r == position_after_swap(*position, *outcome),
{
    match position.unsettled_pnl.checked_add(outcome.pnl) {
        Some(unsettled_pnl) => Ok(
            MarketPosition {
                market_index: position.market_index,
                base_asset_amount: outcome.position_base_asset_amount,
                open_orders: position.open_orders,
                open_bids: position.open_bids,
                open_asks: position.open_asks,
                unsettled_pnl,
            },
        ),
        None => Err(ErrorCode::MathError),
    }
}

/// The size a limit or trigger order fills at: the smaller of what the
/// trader and what the market can execute, or nothing where either is zero
/// or the smaller is below the market's step.
pub open spec fn fillable_size(capacity: Capacity, step_size: u128) -> u128 {
    let size = smaller(capacity.market_can_execute, capacity.user_can_execute);
    if capacity.user_can_execute == 0 || capacity.market_can_execute == 0 || size < step_size {
        0
    } else {
        size
    }
}

/// What executing a limit or trigger order comes to.
///
/// Where the fillable size is zero nothing happens, and that is no error.
/// A fill that would leave the order with a remainder above zero and below
/// one step is refused (`OrderAmountTooSmall`); one that would overfill it
/// is an arithmetic error. A post-only order trades at its own limit price.
/// Without the outcome of the swap the step is to ask for it. With it: the
/// position takes the swap, unless a reduce-only order did more than reduce
/// (`ReduceOnlyOrderIncreasedRisk`). The size reported as filled is the size
/// asked for.
pub open spec fn non_market_order_step(
    user: User,
    order_index: int,
    market: Market,
    valid_oracle_price: Option<i128>,
    capacity: Capacity,
    swap: Option<SwapOutcome>,
) -> Result<(User, ExecutionStep), ErrorCode> {
    let order = user.orders[order_index];
    let step_size = market.amm.base_asset_amount_step_size;
    let size = fillable_size(capacity, step_size);
    let filled = order.base_asset_amount_filled + size;
    let left_to_fill = order.base_asset_amount - filled;
    if capacity.user_can_execute == 0 || capacity.market_can_execute == 0 || smaller(
        capacity.market_can_execute,
        capacity.user_can_execute,
    ) < step_size {
        Ok((user, ExecutionStep::Executed(Execution::nothing())))
    } else if filled > u128::MAX || left_to_fill < 0 {
        Err(ErrorCode::MathError)
    } else if left_to_fill != 0 && left_to_fill < step_size {
        Err(ErrorCode::OrderAmountTooSmall)
    } else {
        match position_index(user.positions@, market.market_index) {
            None => Err(ErrorCode::UserHasNoPositionInMarket),
            Some(p) => {
                let maker_limit_price = if order.post_only {
                    match order.limit_price(valid_oracle_price) {
                        Ok(price) => Ok(Some(price)),
                        Err(e) => Err(e),
                    }
                } else {
                    Ok(None)
                };
                match maker_limit_price {
                    Err(e) => Err(e),
                    Ok(maker_limit_price) => match swap {
                        None => Ok(
                            (
                                user,
                                ExecutionStep::NeedsSwap(
                                    SwapRequest {
                                        base_asset_amount: size,
                                        direction: order.direction,
                                        maker_limit_price,
                                    },
                                ),
                            ),
                        ),
                        Some(outcome) => match position_after_swap(user.positions[p], outcome) {
                            Err(e) => Err(e),
                            Ok(position) => if !outcome.reduce_only && order.reduce_only {
                                Err(ErrorCode::ReduceOnlyOrderIncreasedRisk)
                            } else {
                                Ok(
                                    (
                                        user.with_position(p, position),
                                        ExecutionStep::Executed(
                                            Execution {
                                                base_asset_amount: size,
                                                quote_asset_amount: outcome.quote_asset_amount,
                                                potentially_risk_increasing: outcome.potentially_risk_increasing,
                                                quote_asset_amount_surplus: outcome.quote_asset_amount_surplus,
                                            },
                                        ),
                                    ),
                                )
                            },
                        },
                    },
                }
            },
        }
    }
}

/// Executes a limit or trigger order: fills what both the trader and the
/// market can execute.
///
/// The trader's account changes only where the result is `Executed` with a
/// size above zero.
pub fn execute_non_market_order(
    user: &mut User,
    order_index: usize,
    market: &Market,
    valid_oracle_price: Option<i128>,
    capacity: Capacity,
    swap: Option<SwapOutcome>,
) -> (r: Result<ExecutionStep, ErrorCode>)
    requires
        order_index < 32,
    ensures
        match non_market_order_step(
            *old(user),
            order_index as int,
            *market,
            valid_oracle_price,
            capacity,
            swap,
        ) {
            Ok((after, step)) => r == Ok::<ExecutionStep, ErrorCode>(step) && *final(user) == after,
            Err(e) => r == Err::<ExecutionStep, ErrorCode>(e) && *final(user) == *old(user),
        },
        old(user).wf() && is_open_in_market(*old(user), order_index as int, *market)
            ==> final(user).wf(),
{
    proof {
        if user.wf() && is_open_in_market(*user, order_index as int, *market) {
            lemma_non_market_order_step_keeps_wf(
                *user,
                order_index as int,
                *market,
                valid_oracle_price,
                capacity,
                swap,
            );
        }
    }
    if capacity.user_can_execute == 0 {
        return Ok(ExecutionStep::Executed(Execution::none()));
    }
    if capacity.market_can_execute == 0 {
        return Ok(ExecutionStep::Executed(Execution::none()));
    }
    let base_asset_amount = min_amount(capacity.market_can_execute, capacity.user_can_execute);
    if base_asset_amount < market.amm.base_asset_amount_step_size {
        return Ok(ExecutionStep::Executed(Execution::none()));
    }
    let order = user.orders[order_index];
    let filled = match order.base_asset_amount_filled.checked_add(base_asset_amount) {
        Some(filled) => filled,
        None => { return Err(ErrorCode::MathError); },
    };
    let left_to_fill = match order.base_asset_amount.checked_sub(filled) {
        Some(left) => left,
        None => { return Err(ErrorCode::MathError); },
    };
    if left_to_fill != 0 && left_to_fill < market.amm.base_asset_amount_step_size {
        return Err(ErrorCode::OrderAmountTooSmall);
    }
    let position_index = get_position_index(&user.positions, market.market_index)?;
    let maker_limit_price = if order.post_only {
        Some(order.get_limit_price(valid_oracle_price)?)
    } else {
        None
    };
    let outcome = match swap {
        None => {
            return Ok(
                ExecutionStep::NeedsSwap(
                    SwapRequest {
                        base_asset_amount,
                        direction: order.direction,
                        maker_limit_price,
                    },
                ),
            );
        },
        Some(outcome) => outcome,
    };
    let position = apply_swap(&user.positions[position_index], &outcome)?;
    if !outcome.reduce_only && order.reduce_only {
        return Err(ErrorCode::ReduceOnlyOrderIncreasedRisk);
    }
    user.positions[position_index] = position;
    Ok(
        ExecutionStep::Executed(
            Execution {
                base_asset_amount,
                quote_asset_amount: outcome.quote_asset_amount,
                potentially_risk_increasing: outcome.potentially_risk_increasing,
                quote_asset_amount_surplus: outcome.quote_asset_amount_surplus,
            },
        ),
    )
}

/// What executing an order comes to: a market order goes one way, every
/// other type of order the other.
pub open spec fn order_step(
    user: User,
    order_index: int,
    market: Market,
    valid_oracle_price: Option<i128>,
    capacity: Capacity,
    swap: Option<SwapOutcome>,
) -> Result<(User, ExecutionStep), ErrorCode> {
    if user.orders[order_index].order_type == OrderType::Market {
        market_order_step(user, order_index, market, swap)
    } else {
        non_market_order_step(user, order_index, market, valid_oracle_price, capacity, swap)
    }
}

/// Executes an order by the strategy of its type.
pub fn execute_order(
    user: &mut User,
    order_index: usize,
    market: &Market,
    valid_oracle_price: Option<i128>,
    capacity: Capacity,
    swap: Option<SwapOutcome>,
) -> (r: Result<ExecutionStep, ErrorCode>)
    requires
        order_index < 32,
    ensures
        match order_step(
            *old(user),
            order_index as int,
            *market,
            valid_oracle_price,
            capacity,
            swap,
        ) {
            Ok((after, step)) => r == Ok::<ExecutionStep, ErrorCode>(step) && *final(user) == after,
            Err(e) => r == Err::<ExecutionStep, ErrorCode>(e) && *final(user) == *old(user),
        },
        old(user).wf() && is_open_in_market(*old(user), order_index as int, *market)
            ==> final(user).wf(),
{
    match user.orders[order_index].order_type {
        OrderType::Market => execute_market_order(user, order_index, market, swap),
        _ => execute_non_market_order(
            user,
            order_index,
            market,
            valid_oracle_price,
            capacity,
            swap,
        ),
    }
}

/// Whether `after` is `before` with nothing changed but what a swap or a
/// fee changes of the position in slot `p`: its net size and its unsettled
/// profit and loss.
pub open spec fn differs_in_holding(before: User, after: User, p: int) -> bool {
    &&& after == before.with_position(p, after.positions[p])
    &&& after.positions[p].market_index == before.positions[p].market_index
    &&& after.positions[p].open_orders == before.positions[p].open_orders
    &&& after.positions[p].open_bids == before.positions[p].open_bids
    &&& after.positions[p].open_asks == before.positions[p].open_asks
}

/// Whether the order in slot `order_index` is open in `market`.
pub open spec fn is_open_in_market(user: User, order_index: int, market: Market) -> bool {
    &&& user.orders[order_index].status == OrderStatus::Open
    &&& user.orders[order_index].market_index == market.market_index
}

/// What an execution of an open order against its own market leaves of an
/// account that the engine could have produced: such an account again, in
/// which nothing is changed but the holding of the market's position, which
/// still counts the order.
pub open spec fn is_executed(user: User, after: User, market: Market) -> bool {
    let p = position_index(user.positions@, market.market_index)->Some_0;
    &&& 0 <= p < 5
    &&& after.wf()
    &&& differs_in_holding(user, after, p)
    &&& position_index(after.positions@, market.market_index) == Some(p)
    &&& after.positions[p].open_orders >= 1
}

/// Changing the holding of the position that counts an open order keeps an
/// account one the engine could have produced.
proof fn lemma_holding_changed(user: User, order_index: int, market: Market, after: User)
    requires
        user.wf(),
        0 <= order_index < 32,
        is_open_in_market(user, order_index, market),
        position_index(user.positions@, market.market_index) matches Some(p) && (after == user
            || differs_in_holding(user, after, p)),
    ensures
        is_executed(user, after, market),
{
    let m = market.market_index;
    lemma_open_order_is_counted(user, order_index);
    let p = position_index(user.positions@, m)->Some_0;
    if after == user {
        assert(user.positions =~= user.with_position(p, user.positions[p]).positions);
    } else {
        lemma_position_rewritten_keeps_wf(user, p, after.positions[p]);
        lemma_position_index_kept(user.positions@, p, after.positions[p], m);
    }
}

/// Executing an open market order against its own market keeps an account
/// one the engine could have produced.
pub proof fn lemma_market_order_step_keeps_wf(
    user: User,
    order_index: int,
    market: Market,
    swap: Option<SwapOutcome>,
)
    requires
        user.wf(),
        0 <= order_index < 32,
        is_open_in_market(user, order_index, market),
    ensures
        market_order_step(user, order_index, market, swap) matches Ok((after, _)) ==> is_executed(
            user,
            after,
            market,
        ),
{
    let outcome = market_order_step(user, order_index, market, swap);
    if outcome is Ok {
        lemma_open_order_is_counted(user, order_index);
        lemma_holding_changed(user, order_index, market, outcome->Ok_0.0);
    }
}

/// Executing an open limit or trigger order against its own market keeps an
/// account one the engine could have produced.
pub proof fn lemma_non_market_order_step_keeps_wf(
    user: User,
    order_index: int,
    market: Market,
    valid_oracle_price: Option<i128>,
    capacity: Capacity,
    swap: Option<SwapOutcome>,
)
    requires
        user.wf(),
        0 <= order_index < 32,
        is_open_in_market(user, order_index, market),
    ensures
        non_market_order_step(user, order_index, market, valid_oracle_price, capacity, swap)
            matches Ok((after, _)) ==> is_executed(user, after, market),
{
    let outcome = non_market_order_step(
        user,
        order_index,
        market,
        valid_oracle_price,
        capacity,
        swap,
    );
    if outcome is Ok {
        lemma_open_order_is_counted(user, order_index);
        lemma_holding_changed(user, order_index, market, outcome->Ok_0.0);
    }
}

/// Executing an open order against its own market keeps an account one the
/// engine could have produced, and touches nothing but the holding of the
/// market's position.
pub proof fn lemma_order_step_keeps_wf(
    user: User,
    order_index: int,
    market: Market,
    valid_oracle_price: Option<i128>,
    capacity: Capacity,
    swap: Option<SwapOutcome>,
)
    requires
        user.wf(),
        0 <= order_index < 32,
        is_open_in_market(user, order_index, market),
    ensures
        order_step(user, order_index, market, valid_oracle_price, capacity, swap) matches Ok(
            (after, _),
        ) ==> is_executed(user, after, market),
{
    lemma_market_order_step_keeps_wf(user, order_index, market, swap);
    lemma_non_market_order_step_keeps_wf(
        user,
        order_index,
        market,
        valid_oracle_price,
        capacity,
        swap,
    );
}

/// Where the size that can be filled of a limit or trigger order is zero,
/// the execution fills nothing, changes nothing, and is no error.
pub proof fn lemma_nothing_fillable_is_no_error(
    user: User,
    order_index: int,
    market: Market,
    valid_oracle_price: Option<i128>,
    capacity: Capacity,
    swap: Option<SwapOutcome>,
)
    requires
        fillable_size(capacity, market.amm.base_asset_amount_step_size) == 0,
    ensures
        non_market_order_step(user, order_index, market, valid_oracle_price, capacity, swap)
            == Ok::<(User, ExecutionStep), ErrorCode>(
            (user, ExecutionStep::Executed(Execution::nothing())),
        ),
{
}

/// A market order of which the curve traded less than one step of the
/// market is never executed: it is refused for its size, unless the trader
/// has no position in the market or the position cannot take the profit or
/// loss of the trade, which are found first.
pub proof fn lemma_market_order_below_step_is_refused(
    user: User,
    order_index: int,
    market: Market,
    outcome: SwapOutcome,
)
    requires
        outcome.base_asset_amount < market.amm.base_asset_amount_step_size,
    ensures
        market_order_step(user, order_index, market, Some(outcome)) matches Err(e) && (e
            == ErrorCode::TradeSizeTooSmall || e == ErrorCode::UserHasNoPositionInMarket || e
            == ErrorCode::MathError),
        ({
            let held = position_index(user.positions@, market.market_index);
            held is Some && position_after_swap(user.positions[held->Some_0], outcome) is Ok
                ==> market_order_step(user, order_index, market, Some(outcome)) == Err::<
                (User, ExecutionStep),
                ErrorCode,
            >(ErrorCode::TradeSizeTooSmall)
        }),
{
}

/// Whether an order has room for a fill of `size`: the fill does not carry
/// the filled size beyond the order's size, and what it leaves to fill is
/// nothing or at least one step.
pub open spec fn has_room_for(order: Order, size: u128, step_size: u128) -> bool {
    let left = order.base_asset_amount - (order.base_asset_amount_filled + size);
    left == 0 || left >= step_size
}

/// A limit or trigger order executes exactly the size that can be filled.
///
/// Where that size is above zero, the order has room for it, the trader has
/// a position in the market and a post-only order has a limit price: the
/// swap asked for is of that size, in the order's direction, at the
/// order's own limit price for a post-only order and at the curve's price
/// otherwise. Given the outcome of the swap, the execution reports that
/// size with the quote amount, the risk flag and the surplus of the
/// outcome, and the position has taken the swap, provided that the position
/// can take the profit or loss and that a reduce-only order only reduced.
pub proof fn lemma_non_market_order_executes_the_fillable_size(
    user: User,
    order_index: int,
    market: Market,
    valid_oracle_price: Option<i128>,
    capacity: Capacity,
    swap: Option<SwapOutcome>,
)
    requires
        fillable_size(capacity, market.amm.base_asset_amount_step_size) > 0,
        has_room_for(
            user.orders[order_index],
            fillable_size(capacity, market.amm.base_asset_amount_step_size),
            market.amm.base_asset_amount_step_size,
        ),
        position_index(user.positions@, market.market_index) is Some,
        user.orders[order_index].post_only ==> user.orders[order_index].limit_price(
            valid_oracle_price,
        ) is Ok,
    ensures
        ({
            let order = user.orders[order_index];
            let size = fillable_size(capacity, market.amm.base_asset_amount_step_size);
            let p = position_index(user.positions@, market.market_index)->Some_0;
            let step = non_market_order_step(
                user,
                order_index,
                market,
                valid_oracle_price,
                capacity,
                swap,
            );
            &&& size == smaller(capacity.market_can_execute, capacity.user_can_execute)
            &&& size >= market.amm.base_asset_amount_step_size
            &&& swap is None ==> step == Ok::<(User, ExecutionStep), ErrorCode>(
                (
                    user,
                    ExecutionStep::NeedsSwap(
                        SwapRequest {
                            base_asset_amount: size,
                            direction: order.direction,
                            maker_limit_price: if order.post_only {
                                Some(order.limit_price(valid_oracle_price)->Ok_0)
                            } else {
                                None
                            },
                        },
                    ),
                ),
            )
            &&& swap is Some && position_after_swap(user.positions[p], swap->Some_0) is Ok && (
            swap->Some_0.reduce_only || !order.reduce_only) ==> step == Ok::<
                (User, ExecutionStep),
                ErrorCode,
            >(
                (
                    user.with_position(
                        p,
                        position_after_swap(user.positions[p], swap->Some_0)->Ok_0,
                    ),
                    ExecutionStep::Executed(
                        Execution {
                            base_asset_amount: size,
                            quote_asset_amount: swap->Some_0.quote_asset_amount,
                            potentially_risk_increasing: swap->Some_0.potentially_risk_increasing,
                            quote_asset_amount_surplus: swap->Some_0.quote_asset_amount_surplus,
                        },
                    ),
                ),
            )
        }),
{
}

} // verus!
