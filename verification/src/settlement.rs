//! Settling a fill: the fees, the rewards, the order's books, the records,
//! and the order's leaving the book once nothing of it is left to rest.

use crate::error::ErrorCode;
use crate::events::{OrderAction, OrderRecord, TradeRecord};
use crate::execution::{
    execute_order, is_open_in_market, lemma_order_step_keeps_wf, order_step, Capacity, Execution,
    ExecutionStep, SwapOutcome, SwapRequest,
};
use crate::market::Market;
use crate::math::{cast_to_i128, cast_to_u64, magnitude, unsigned_abs};
use crate::order::{same_pubkey, Order, OrderStatus, OrderType, Pubkey};
use crate::position::{
    add_new_position, available, decrease_open_bids_and_asks, free_position_index,
    get_position_index, held_for, lemma_position_index_kept, position_index,
    update_unsettled_pnl, MarketPosition,
};
use crate::scan::lemma_first_match;
use crate::user::{
    covers_resting_orders, is_wf_if_present, lemma_fill_booked_keeps_wf,
    lemma_no_position_no_open_orders, lemma_order_removed_keeps_wf,
    lemma_position_rewritten_keeps_wf, User,
};
use vstd::prelude::*;

verus! {

/// How the fee of one fill is shared out, as the fee schedule has it.
#[derive(Clone, Copy, Debug, PartialEq, Eq)]
pub struct OrderFees {
    /// What the trader pays; negative for a rebate.
    pub user_fee: i128,
    pub fee_to_market: i128,
    pub token_discount: u128,
    pub filler_reward: u128,
    pub referrer_reward: u128,
    pub referee_discount: u128,
}

/// What is known once the swap of a fill has been made: its outcome, the
/// fees on it, and the prices read after it.
#[derive(Clone, Copy, Debug, PartialEq, Eq)]
pub struct PostSwap {
    pub outcome: SwapOutcome,
    pub fees: OrderFees,
    pub mark_price_after: u128,
    pub oracle_price_after: i128,
    pub oracle_mark_spread_pct_after: i128,
}

/// What a fill settled: what it moved, and the two records of it.
#[derive(Clone, Copy, Debug, PartialEq, Eq)]
pub struct Fulfillment {
    pub base_asset_amount: u128,
    pub potentially_risk_increasing: bool,
    pub trade_record: TradeRecord,
    pub order_record: OrderRecord,
}

/// How far a fulfillment got.
#[derive(Clone, Copy, Debug, PartialEq, Eq)]
pub enum FulfillmentStep {
    /// The swap has to be made first.
    NeedsSwap(SwapRequest),
    /// Nothing could be filled; nothing was changed.
    NotFilled,
    Filled(Fulfillment),
}

/// An order after a fill of `base_asset_amount` for `quote_asset_amount` at
/// `fee` was booked to it.
///
/// The filled size of an order, of whatever type, never goes beyond the
/// order's size: a fill that would carry it there is an arithmetic error,
/// as is a counter that cannot hold its sum. An order that is no market
/// order may not be left with a remainder above zero and below
/// `minimum_base_asset_trade_size` (`OrderAmountTooSmall`); a market order
/// does not rest, so what is left of it does not matter.
///
/// An order that names no base size has a size of zero: no fill above zero
/// can be booked to it.
pub open spec fn order_after_fill(
    order: Order,
    minimum_base_asset_trade_size: u128,
    base_asset_amount: u128,
    quote_asset_amount: u128,
    fee: i128,
) -> Result<Order, ErrorCode> {
    let base_filled = order.base_asset_amount_filled + base_asset_amount;
    let quote_filled = order.quote_asset_amount_filled + quote_asset_amount;
    let to_fill = order.base_asset_amount - base_filled;
    let fee_sum = order.fee + fee;
    if base_filled > u128::MAX || quote_filled > u128::MAX {
        Err(ErrorCode::MathError)
    } else if to_fill < 0 {
        Err(ErrorCode::MathError)
    } else if order.order_type != OrderType::Market && 0 < to_fill
        < minimum_base_asset_trade_size {
        Err(ErrorCode::OrderAmountTooSmall)
    } else if fee_sum < i128::MIN || fee_sum > i128::MAX {
        Err(ErrorCode::MathError)
    } else {
        Ok(
            Order {
                base_asset_amount_filled: base_filled as u128,
                quote_asset_amount_filled: quote_filled as u128,
                fee: fee_sum as i128,
                ..order
            },
        )
    }
}

/// Books a fill to an order. On an error the order is unchanged.
///
/// On success the filled size has not gone down and has not gone beyond
/// the order's size; nothing but the two filled amounts and the fee has
/// changed.
pub fn update_order_after_fill(
    order: &mut Order,
    minimum_base_asset_trade_size: u128,
    base_asset_amount: u128,
    quote_asset_amount: u128,
    fee: i128,
) -> (r: Result<(), ErrorCode>)
    ensures
        match order_after_fill(
            *old(order),
            minimum_base_asset_trade_size,
            base_asset_amount,
            quote_asset_amount,
            fee,
        ) {
            Ok(after) => r is Ok && *final(order) == after,
            Err(e) => r == Err::<(), ErrorCode>(e) && *final(order) == *old(order),
        },
        r is Ok ==> old(order).base_asset_amount_filled <= final(order).base_asset_amount_filled
            <= final(order).base_asset_amount,
        r is Ok ==> final(order).base_asset_amount_filled == old(order).base_asset_amount_filled
            + base_asset_amount,
        old(order).base_asset_amount_filled + base_asset_amount > old(order).base_asset_amount
            ==> r == Err::<(), ErrorCode>(ErrorCode::MathError),
{
    let base_filled = match order.base_asset_amount_filled.checked_add(base_asset_amount) {
        Some(sum) => sum,
        None => { return Err(ErrorCode::MathError); },
    };
    let quote_filled = match order.quote_asset_amount_filled.checked_add(quote_asset_amount) {
        Some(sum) => sum,
        None => { return Err(ErrorCode::MathError); },
    };
    let to_fill = match order.base_asset_amount.checked_sub(base_filled) {
        Some(left) => left,
        None => { return Err(ErrorCode::MathError); },
    };
    if order.order_type != OrderType::Market && to_fill > 0 && to_fill
        < minimum_base_asset_trade_size {
        return Err(ErrorCode::OrderAmountTooSmall);
    }
    let fee_sum = match order.fee.checked_add(fee) {
        Some(sum) => sum,
        None => { return Err(ErrorCode::MathError); },
    };
    order.base_asset_amount_filled = base_filled;
    order.quote_asset_amount_filled = quote_filled;
    order.fee = fee_sum;
    Ok(())
}

/// The trader's account after the fee of a fill was taken out of the
/// unsettled profit and loss of the position in slot `p`: fees reduce what
/// the position has yet to settle, not the trader's collateral.
pub open spec fn trader_charged(user: User, p: int, user_fee: i128) -> Result<User, ErrorCode> {
    if user_fee == i128::MIN {
        Err(ErrorCode::MathError)
    } else {
        match user.positions[p].with_pnl((-user_fee) as i128) {
            Ok(position) => Ok(user.with_position(p, position)),
            Err(e) => Err(e),
        }
    }
}

/// Takes the fee of a fill out of a position's unsettled profit and loss.
pub fn charge_trader(user: &User, p: usize, user_fee: i128) -> (r: Result<User, ErrorCode>)
    requires
        p < 5,
    ensures
        r == trader_charged(*user, p as int, user_fee),
{
    let charge = match 0i128.checked_sub(user_fee) {
        Some(charge) => charge,
        None => { return Err(ErrorCode::MathError); },
    };
    let mut position = user.positions[p];
    update_unsettled_pnl(&mut position, charge)?;
    let mut after = *user;
    after.positions[p] = position;
    Ok(after)
}

/// The filler's account after the reward for a fill in a market was added
/// to the unsettled profit and loss of the filler's position there. A filler
/// without a position in the market gets one in the first free slot.
pub open spec fn filler_rewarded(filler: User, market_index: u64, filler_reward: u128) -> Result<
    User,
    ErrorCode,
> {
    let held = position_index(filler.positions@, market_index);
    let slot = if held is Some {
        held
    } else {
        free_position_index(filler.positions@)
    };
    match slot {
        None => Err(ErrorCode::MaxNumberOfPositions),
        Some(i) => {
            let position = if held is Some {
                filler.positions[i]
            } else {
                MarketPosition::fresh(market_index)
            };
            if filler_reward > i128::MAX {
                Err(ErrorCode::CastingFailure)
            } else {
                match position.with_pnl(filler_reward as i128) {
                    Ok(position) => Ok(filler.with_position(i, position)),
                    Err(e) => Err(e),
                }
            }
        },
    }
}

/// Credits the reward for a fill to the filler's position in the market.
pub fn reward_filler(filler: &User, market_index: u64, filler_reward: u128) -> (r: Result<
    User,
    ErrorCode,
>)
    ensures
        r == filler_rewarded(*filler, market_index, filler_reward),
{
    let mut after = *filler;
    let i = match get_position_index(&after.positions, market_index) {
        Ok(i) => i,
        Err(_) => {
            let mut positions = after.positions;
            let i = add_new_position(&mut positions, market_index)?;
            after.positions = positions;
            i
        },
    };
    let reward = cast_to_i128(filler_reward)?;
    let mut position = after.positions[i];
    update_unsettled_pnl(&mut position, reward)?;
    after.positions[i] = position;
    assert(after.positions =~= filler_rewarded(*filler, market_index, filler_reward)->Ok_0.positions);
    Ok(after)
}

/// The trader's account after the fees of a fill were added to its running
/// totals: the fee to the fees paid where the trader pays, its magnitude to
/// the rebates where the trader receives or the fee is zero, and the two
/// discounts each to its total.
pub open spec fn fees_tallied(user: User, fees: OrderFees) -> Result<User, ErrorCode> {
    let amount = magnitude(fees.user_fee as int);
    let paid = if fees.user_fee > 0 {
        user.total_fee_paid + amount
    } else {
        user.total_fee_paid as int
    };
    let rebate = if fees.user_fee > 0 {
        user.total_fee_rebate as int
    } else {
        user.total_fee_rebate + amount
    };
    let token_discount = user.total_token_discount + fees.token_discount;
    let referee_discount = user.total_referee_discount + fees.referee_discount;
    if amount > u64::MAX {
        Err(ErrorCode::CastingFailure)
    } else if paid > u64::MAX || rebate > u64::MAX || token_discount > u128::MAX
        || referee_discount > u128::MAX {
        Err(ErrorCode::MathError)
    } else {
        Ok(
            User {
                total_fee_paid: paid as u64,
                total_fee_rebate: rebate as u64,
                total_token_discount: token_discount as u128,
                total_referee_discount: referee_discount as u128,
                ..user
            },
        )
    }
}

/// Adds the fees of a fill to the trader's running totals.
pub fn tally_fees(user: &User, fees: &OrderFees) -> (r: Result<User, ErrorCode>)
    ensures
        r == fees_tallied(*user, *fees),
{
    let amount = cast_to_u64(unsigned_abs(fees.user_fee))?;
    let mut after = *user;
    if fees.user_fee > 0 {
        after.total_fee_paid = match user.total_fee_paid.checked_add(amount) {
            Some(sum) => sum,
            None => { return Err(ErrorCode::MathError); },
        };
    } else {
        after.total_fee_rebate = match user.total_fee_rebate.checked_add(amount) {
            Some(sum) => sum,
            None => { return Err(ErrorCode::MathError); },
        };
    }
    after.total_token_discount = match user.total_token_discount.checked_add(fees.token_discount) {
        Some(sum) => sum,
        None => { return Err(ErrorCode::MathError); },
    };
    after.total_referee_discount = match user.total_referee_discount.checked_add(
        fees.referee_discount,
    ) {
        Some(sum) => sum,
        None => { return Err(ErrorCode::MathError); },
    };
    Ok(after)
}

/// The referrer's account after the reward for a fill was added to its total.
pub open spec fn referrer_rewarded(referrer: User, referrer_reward: u128) -> Result<
    User,
    ErrorCode,
> {
    if referrer.total_referral_reward + referrer_reward > u128::MAX {
        Err(ErrorCode::MathError)
    } else {
        Ok(
            User {
                total_referral_reward: (referrer.total_referral_reward + referrer_reward) as u128,
                ..referrer
            },
        )
    }
}

/// Adds the reward for a fill to the referrer's total.
pub fn reward_referrer(referrer: &User, referrer_reward: u128) -> (r: Result<User, ErrorCode>)
    ensures
        r == referrer_rewarded(*referrer, referrer_reward),
{
    let mut after = *referrer;
    after.total_referral_reward = match referrer.total_referral_reward.checked_add(
        referrer_reward,
    ) {
        Some(sum) => sum,
        None => { return Err(ErrorCode::MathError); },
    };
    Ok(after)
}

/// The trader's account after a fill was booked to the order in slot
/// `order_index` and, for an order that names a base size, the size filled
/// was taken off the open interest of the position in slot `p`.
pub open spec fn fill_booked(
    user: User,
    order_index: int,
    p: int,
    step_size: u128,
    execution: Execution,
    user_fee: i128,
) -> Result<User, ErrorCode> {
    match order_after_fill(
        user.orders[order_index],
        step_size,
        execution.base_asset_amount,
        execution.quote_asset_amount,
        user_fee,
    ) {
        Err(e) => Err(e),
        Ok(order) => if order.base_asset_amount != 0 {
            match user.positions[p].with_less_open(order.direction, execution.base_asset_amount) {
                Err(e) => Err(e),
                Ok(position) => Ok(user.with_order(order_index, order).with_position(p, position)),
            }
        } else {
            Ok(user.with_order(order_index, order))
        },
    }
}

/// Books a fill to an order and to the open interest of its position.
pub fn book_fill(
    user: &User,
    order_index: usize,
    p: usize,
    step_size: u128,
    execution: &Execution,
    user_fee: i128,
) -> (r: Result<User, ErrorCode>)
    requires
        order_index < 32,
        p < 5,
    ensures
        r == fill_booked(*user, order_index as int, p as int, step_size, *execution, user_fee),
{
    let mut order = user.orders[order_index];
    update_order_after_fill(
        &mut order,
        step_size,
        execution.base_asset_amount,
        execution.quote_asset_amount,
        user_fee,
    )?;
    let mut after = *user;
    after.orders[order_index] = order;
    if order.base_asset_amount != 0 {
        let mut position = user.positions[p];
        decrease_open_bids_and_asks(
            &mut position,
            order.direction,
            execution.base_asset_amount,
        )?;
        after.positions[p] = position;
    }
    Ok(after)
}

/// Whether nothing of an order is left to rest: it is filled in full, or it
/// is a market order, which never stays open from one fill to the next.
pub open spec fn is_finished(order: Order) -> bool {
    order.base_asset_amount == order.base_asset_amount_filled || order.order_type
        == OrderType::Market
}

/// The trader's account after the order in slot `order_index` left the
/// book: the slot is empty again, and the position of the order's market
/// counts one open order less.
pub open spec fn order_retired(user: User, order_index: int, market_index: u64) -> Result<
    User,
    ErrorCode,
> {
    let cleared = user.with_order(order_index, Order::empty());
    match position_index(cleared.positions@, market_index) {
        None => Err(ErrorCode::UserHasNoPositionInMarket),
        Some(q) => match cleared.positions[q].with_order_closed() {
            Err(e) => Err(e),
            Ok(position) => Ok(cleared.with_position(q, position)),
        },
    }
}

/// Empties an order slot and counts the order out of its position.
pub fn retire_order(user: &User, order_index: usize, market_index: u64) -> (r: Result<
    User,
    ErrorCode,
>)
    requires
        order_index < 32,
    ensures
        r == order_retired(*user, order_index as int, market_index),
{
    let mut after = *user;
    after.orders[order_index] = Order::default();
    let q = get_position_index(&after.positions, market_index)?;
    let mut position = after.positions[q];
    position.open_orders = match position.open_orders.checked_sub(1) {
        Some(count) => count,
        None => { return Err(ErrorCode::MathError); },
    };
    after.positions[q] = position;
    Ok(after)
}

/// The filler's account after a fill. The trader filling the trader's own
/// order earns nothing as a filler; any other filler is rewarded, and has to
/// have been handed in (`UnableToLoadAccountLoader` otherwise).
pub open spec fn filler_settled(
    filler: Option<User>,
    self_fill: bool,
    market_index: u64,
    filler_reward: u128,
) -> Result<Option<User>, ErrorCode> {
    if self_fill {
        Ok(filler)
    } else {
        match filler {
            None => Err(ErrorCode::UnableToLoadAccountLoader),
            Some(account) => match filler_rewarded(account, market_index, filler_reward) {
                Ok(after) => Ok(Some(after)),
                Err(e) => Err(e),
            },
        }
    }
}

/// The referrer's account after a fill, where there is a referrer.
pub open spec fn referrer_settled(referrer: Option<User>, referrer_reward: u128) -> Result<
    Option<User>,
    ErrorCode,
> {
    match referrer {
        None => Ok(None),
        Some(account) => match referrer_rewarded(account, referrer_reward) {
            Ok(after) => Ok(Some(after)),
            Err(e) => Err(e),
        },
    }
}

/// The record of a trade against the market.
pub open spec fn trade_record_of(
    user: User,
    user_key: Pubkey,
    order: Order,
    market: Market,
    now: i64,
    mark_price_before: u128,
    execution: Execution,
    post: PostSwap,
) -> TradeRecord {
    TradeRecord {
        ts: now,
        record_id: market.next_trade_record_id,
        user_authority: user.authority,
        user: user_key,
        direction: order.direction,
        base_asset_amount: execution.base_asset_amount,
        quote_asset_amount: execution.quote_asset_amount,
        mark_price_before,
        mark_price_after: post.mark_price_after,
        fee: post.fees.user_fee,
        token_discount: post.fees.token_discount,
        quote_asset_amount_surplus: execution.quote_asset_amount_surplus,
        referee_discount: post.fees.referee_discount,
        liquidation: false,
        market_index: market.market_index,
        oracle_price: post.oracle_price_after,
    }
}

/// The record of a fill of an order, showing the order with the fill booked.
pub open spec fn fill_record_of(
    user: User,
    user_key: Pubkey,
    filler_key: Pubkey,
    order: Order,
    market: Market,
    now: i64,
    execution: Execution,
    post: PostSwap,
) -> OrderRecord {
    OrderRecord {
        ts: now,
        order,
        user: user_key,
        authority: user.authority,
        action: OrderAction::Fill,
        filler: filler_key,
        trade_record_id: market.next_trade_record_id,
        base_asset_amount_filled: execution.base_asset_amount,
        quote_asset_amount_filled: execution.quote_asset_amount,
        filler_reward: post.fees.filler_reward,
        fee: post.fees.user_fee,
        quote_asset_amount_surplus: execution.quote_asset_amount_surplus,
    }
}

/// Everything a fulfillment leaves behind.
pub struct Settled {
    pub user: User,
    pub market: Market,
    pub filler: Option<User>,
    pub referrer: Option<User>,
    pub step: FulfillmentStep,
}

/// What settling an execution comes to, for a trader account that has taken
/// the swap already.
///
/// In this order: the market's fee counters take the market's share; the
/// fee comes out of the trader's unsettled profit and loss; a filler other
/// than the trader is rewarded; the trader's totals take the fee and the
/// discounts; a referrer is rewarded; the fill is booked to the order and
/// comes off the position's open interest; the market hands out a trade
/// record id; and an order of which nothing is left to rest leaves the book.
/// The first step that fails decides the error.
pub open spec fn settlement(
    user: User,
    order_index: int,
    market: Market,
    filler: Option<User>,
    referrer: Option<User>,
    user_key: Pubkey,
    filler_key: Pubkey,
    now: i64,
    mark_price_before: u128,
    execution: Execution,
    post: PostSwap,
) -> Result<Settled, ErrorCode> {
    let m = market.market_index;
    let fees = post.fees;
    match position_index(user.positions@, m) {
        None => Err(ErrorCode::UserHasNoPositionInMarket),
        Some(p) => match market.with_fee_collected(fees.fee_to_market) {
            Err(e) => Err(e),
            Ok(market_paid) => match trader_charged(user, p, fees.user_fee) {
                Err(e) => Err(e),
                Ok(charged) => match filler_settled(
                    filler,
                    filler_key == user_key,
                    m,
                    fees.filler_reward,
                ) {
                    Err(e) => Err(e),
                    Ok(filler_after) => match fees_tallied(charged, fees) {
                        Err(e) => Err(e),
                        Ok(tallied) => match referrer_settled(referrer, fees.referrer_reward) {
                            Err(e) => Err(e),
                            Ok(referrer_after) => match fill_booked(
                                tallied,
                                order_index,
                                p,
                                market.amm.base_asset_amount_step_size,
                                execution,
                                fees.user_fee,
                            ) {
                                Err(e) => Err(e),
                                Ok(booked) => match market_paid.with_trade_recorded() {
                                    Err(e) => Err(e),
                                    Ok(market_after) => {
                                        let order = booked.orders[order_index];
                                        let step = FulfillmentStep::Filled(
                                            Fulfillment {
                                                base_asset_amount: execution.base_asset_amount,
                                                potentially_risk_increasing: execution.potentially_risk_increasing,
                                                trade_record: trade_record_of(
                                                    user,
                                                    user_key,
                                                    order,
                                                    market,
                                                    now,
                                                    mark_price_before,
                                                    execution,
                                                    post,
                                                ),
                                                order_record: fill_record_of(
                                                    user,
                                                    user_key,
                                                    filler_key,
                                                    order,
                                                    market,
                                                    now,
                                                    execution,
                                                    post,
                                                ),
                                            },
                                        );
                                        if is_finished(order) {
                                            match order_retired(booked, order_index, m) {
                                                Err(e) => Err(e),
                                                Ok(retired) => Ok(
                                                    Settled {
                                                        user: retired,
                                                        market: market_after,
                                                        filler: filler_after,
                                                        referrer: referrer_after,
                                                        step,
                                                    },
                                                ),
                                            }
                                        } else {
                                            Ok(
                                                Settled {
                                                    user: booked,
                                                    market: market_after,
                                                    filler: filler_after,
                                                    referrer: referrer_after,
                                                    step,
                                                },
                                            )
                                        }
                                    },
                                },
                            },
                        },
                    },
                },
            },
        },
    }
}

/// What fulfilling an order against the market's price curve comes to.
///
/// The order is executed by the strategy of its type. Where that needs the
/// swap first, so does the fulfillment; where it fills nothing, nothing is
/// changed and nothing recorded; otherwise the execution is settled.
pub open spec fn fulfillment(
    user: User,
    order_index: int,
    market: Market,
    filler: Option<User>,
    referrer: Option<User>,
    user_key: Pubkey,
    filler_key: Pubkey,
    now: i64,
    mark_price_before: u128,
    valid_oracle_price: Option<i128>,
    capacity: Capacity,
    post: Option<PostSwap>,
) -> Result<Settled, ErrorCode> {
    let swap = match post {
        Some(post) => Some(post.outcome),
        None => None,
    };
    match order_step(user, order_index, market, valid_oracle_price, capacity, swap) {
        Err(e) => Err(e),
        Ok((_, ExecutionStep::NeedsSwap(request))) => Ok(
            Settled { user, market, filler, referrer, step: FulfillmentStep::NeedsSwap(request) },
        ),
        Ok((executed, ExecutionStep::Executed(execution))) => if execution.base_asset_amount == 0
            || post is None {
            Ok(Settled { user, market, filler, referrer, step: FulfillmentStep::NotFilled })
        } else {
            settlement(
                executed,
                order_index,
                market,
                filler,
                referrer,
                user_key,
                filler_key,
                now,
                mark_price_before,
                execution,
                post->Some_0,
            )
        },
    }
}

/// Fulfills an order against the market's price curve and settles the fill.
///
/// Every account changes as `fulfillment` says where the result is
/// `Filled`, and none changes otherwise: not on an error, not where the swap
/// is still to be made, not where nothing was filled.
pub fn fulfill_order_with_amm(
    user: &mut User,
    order_index: usize,
    market: &mut Market,
    filler: &mut Option<User>,
    referrer: &mut Option<User>,
    user_key: &Pubkey,
    filler_key: &Pubkey,
    now: i64,
    mark_price_before: u128,
    valid_oracle_price: Option<i128>,
    capacity: Capacity,
    post: Option<PostSwap>,
) -> (r: Result<FulfillmentStep, ErrorCode>)
    requires
        order_index < 32,
    ensures
        match fulfillment(
            *old(user),
            order_index as int,
            *old(market),
            *old(filler),
            *old(referrer),
            *user_key,
            *filler_key,
            now,
            mark_price_before,
            valid_oracle_price,
            capacity,
            post,
        ) {
            Ok(settled) => {
                &&& r == Ok::<FulfillmentStep, ErrorCode>(settled.step)
                &&& *final(user) == settled.user
                &&& *final(market) == settled.market
                &&& *final(filler) == settled.filler
                &&& *final(referrer) == settled.referrer
            },
            Err(e) => {
                &&& r == Err::<FulfillmentStep, ErrorCode>(e)
                &&& *final(user) == *old(user)
                &&& *final(market) == *old(market)
                &&& *final(filler) == *old(filler)
                &&& *final(referrer) == *old(referrer)
            },
        },
        !(r matches Ok(FulfillmentStep::Filled(_))) ==> {
            &&& *final(user) == *old(user)
            &&& *final(market) == *old(market)
            &&& *final(filler) == *old(filler)
            &&& *final(referrer) == *old(referrer)
        },
        old(user).wf() && is_open_in_market(*old(user), order_index as int, *old(market))
            && is_wf_if_present(*old(filler)) && is_wf_if_present(*old(referrer)) ==> {
            &&& final(user).wf()
            &&& is_wf_if_present(*final(filler))
            &&& is_wf_if_present(*final(referrer))
        },
{
    proof {
        if user.wf() && is_open_in_market(*user, order_index as int, *market) && is_wf_if_present(
            *filler,
        ) && is_wf_if_present(*referrer) {
            lemma_fulfillment_keeps_wf(
                *user,
                order_index as int,
                *market,
                *filler,
                *referrer,
                *user_key,
                *filler_key,
                now,
                mark_price_before,
                valid_oracle_price,
                capacity,
                post,
            );
        }
    }
    let swap = match post {
        Some(post) => Some(post.outcome),
        None => None,
    };
    let mut executed = *user;
    let execution = match execute_order(
        &mut executed,
        order_index,
        market,
        valid_oracle_price,
        capacity,
        swap,
    )? {
        ExecutionStep::NeedsSwap(request) => {
            return Ok(FulfillmentStep::NeedsSwap(request));
        },
        ExecutionStep::Executed(execution) => execution,
    };
    let post = match post {
        Some(post) => post,
        None => {
            return Ok(FulfillmentStep::NotFilled);
        },
    };
    if execution.base_asset_amount == 0 {
        return Ok(FulfillmentStep::NotFilled);
    }
    let fees = post.fees;
    let market_index = market.market_index;
    let p = get_position_index(&executed.positions, market_index)?;

    let mut market_after = *market;
    market_after.collect_fee(fees.fee_to_market)?;
    let charged = charge_trader(&executed, p, fees.user_fee)?;
    let filler_after = if same_pubkey(filler_key, user_key) {
        *filler
    } else {
        match *filler {
            None => { return Err(ErrorCode::UnableToLoadAccountLoader); },
            Some(account) => Some(reward_filler(&account, market_index, fees.filler_reward)?),
        }
    };
    let tallied = tally_fees(&charged, &fees)?;
    let referrer_after = match *referrer {
        None => None,
        Some(account) => Some(reward_referrer(&account, fees.referrer_reward)?),
    };
    let booked = book_fill(
        &tallied,
        order_index,
        p,
        market.amm.base_asset_amount_step_size,
        &execution,
        fees.user_fee,
    )?;
    let record_id = market_after.take_trade_record_id()?;
    let order = booked.orders[order_index];
    let trade_record = TradeRecord {
        ts: now,
        record_id,
        user_authority: executed.authority,
        user: *user_key,
        direction: order.direction,
        base_asset_amount: execution.base_asset_amount,
        quote_asset_amount: execution.quote_asset_amount,
        mark_price_before,
        mark_price_after: post.mark_price_after,
        fee: fees.user_fee,
        token_discount: fees.token_discount,
        quote_asset_amount_surplus: execution.quote_asset_amount_surplus,
        referee_discount: fees.referee_discount,
        liquidation: false,
        market_index,
        oracle_price: post.oracle_price_after,
    };
    let order_record = OrderRecord {
        ts: now,
        order,
        user: *user_key,
        authority: executed.authority,
        action: OrderAction::Fill,
        filler: *filler_key,
        trade_record_id: record_id,
        base_asset_amount_filled: execution.base_asset_amount,
        quote_asset_amount_filled: execution.quote_asset_amount,
        filler_reward: fees.filler_reward,
        fee: fees.user_fee,
        quote_asset_amount_surplus: execution.quote_asset_amount_surplus,
    };
    let finished = order.base_asset_amount == order.base_asset_amount_filled || order.order_type
        == OrderType::Market;
    let user_after = if finished {
        retire_order(&booked, order_index, market_index)?
    } else {
        booked
    };
    *user = user_after;
    *market = market_after;
    *filler = filler_after;
    *referrer = referrer_after;
    Ok(
        FulfillmentStep::Filled(
            Fulfillment {
                base_asset_amount: execution.base_asset_amount,
                potentially_risk_increasing: execution.potentially_risk_increasing,
                trade_record,
                order_record,
            },
        ),
    )
}

/// Rewarding a filler keeps the filler's account one the engine could have
/// produced.
pub proof fn lemma_filler_rewarded_keeps_wf(filler: User, market_index: u64, filler_reward: u128)
    requires
        filler.wf(),
    ensures
        filler_rewarded(filler, market_index, filler_reward) matches Ok(after) ==> after.wf(),
{
    let outcome = filler_rewarded(filler, market_index, filler_reward);
    if outcome is Ok {
        let after = outcome->Ok_0;
        lemma_first_match(filler.positions@, held_for(market_index));
        lemma_first_match(filler.positions@, available());
        let held = position_index(filler.positions@, market_index);
        let i = if held is Some {
            held->Some_0
        } else {
            free_position_index(filler.positions@)->Some_0
        };
        assert(after == filler.with_position(i, after.positions[i]));
        if held is Some {
            assert(!filler.positions[i].spec_is_available());
            assert(covers_resting_orders(filler.orders@, filler.positions[i]));
        } else {
            lemma_no_position_no_open_orders(filler, market_index);
        }
        lemma_position_rewritten_keeps_wf(filler, i, after.positions[i]);
    }
}

/// Settling the execution of an open order against its own market keeps
/// every account one the engine could have produced, and counts the order
/// out of its position exactly when nothing of it is left to rest.
pub proof fn lemma_settlement_keeps_wf(
    user: User,
    order_index: int,
    market: Market,
    filler: Option<User>,
    referrer: Option<User>,
    user_key: Pubkey,
    filler_key: Pubkey,
    now: i64,
    mark_price_before: u128,
    execution: Execution,
    post: PostSwap,
)
    requires
        user.wf(),
        0 <= order_index < 32,
        is_open_in_market(user, order_index, market),
        position_index(user.positions@, market.market_index) matches Some(p)
            && user.positions[p].open_orders >= 1,
        is_wf_if_present(filler),
        is_wf_if_present(referrer),
    ensures
        settlement(
            user,
            order_index,
            market,
            filler,
            referrer,
            user_key,
            filler_key,
            now,
            mark_price_before,
            execution,
            post,
        ) matches Ok(settled) ==> {
            let p = position_index(user.positions@, market.market_index)->Some_0;
            &&& settled.user.wf()
            &&& is_wf_if_present(settled.filler)
            &&& is_wf_if_present(settled.referrer)
            &&& settled.step matches FulfillmentStep::Filled(filled) && {
                let booked = filled.order_record.order;
                &&& order_after_fill(
                    user.orders[order_index],
                    market.amm.base_asset_amount_step_size,
                    execution.base_asset_amount,
                    execution.quote_asset_amount,
                    post.fees.user_fee,
                ) == Ok::<Order, ErrorCode>(booked)
                &&& is_finished(booked) ==> {
                    &&& settled.user.orders[order_index] == Order::empty()
                    &&& settled.user.positions[p].open_orders + 1 == user.positions[p].open_orders
                }
                &&& !is_finished(booked) ==> {
                    &&& settled.user.orders[order_index] == booked
                    &&& settled.user.positions[p].open_orders == user.positions[p].open_orders
                }
            }
            &&& forall|q: int|
                0 <= q < 5 && q != p ==> (#[trigger] settled.user.positions[q]) == user.positions[q]
            &&& forall|k: int|
                0 <= k < 32 && k != order_index ==> (#[trigger] settled.user.orders[k]) == user.orders[k]
        },
{
    let m = market.market_index;
    let fees = post.fees;
    let outcome = settlement(
        user,
        order_index,
        market,
        filler,
        referrer,
        user_key,
        filler_key,
        now,
        mark_price_before,
        execution,
        post,
    );
    if outcome is Ok {
        let settled = outcome->Ok_0;
        let p = position_index(user.positions@, m)->Some_0;
        lemma_first_match(user.positions@, held_for(m));
        // The fee comes out of the position.
        let charged = trader_charged(user, p, fees.user_fee)->Ok_0;
        lemma_position_rewritten_keeps_wf(user, p, charged.positions[p]);
        lemma_position_index_kept(user.positions@, p, charged.positions[p], m);
        assert(charged.positions@ == user.positions@.update(p, charged.positions[p]));
        // The filler and the referrer.
        if filler_key != user_key {
            lemma_filler_rewarded_keeps_wf(filler->Some_0, m, fees.filler_reward);
        }
        // The totals are no part of what makes an account well formed.
        let tallied = fees_tallied(charged, fees)->Ok_0;
        assert(tallied.wf());
        // The fill is booked.
        let booked = fill_booked(
            tallied,
            order_index,
            p,
            market.amm.base_asset_amount_step_size,
            execution,
            fees.user_fee,
        )->Ok_0;
        let order = booked.orders[order_index];
        let position = booked.positions[p];
        assert(position.market_index == m);
        assert(position.open_orders == user.positions[p].open_orders);
        let before = tallied.orders[order_index];
        assert(before == user.orders[order_index]);
        assert(tallied.positions[p] == charged.positions[p]);
        assert(position_index(tallied.positions@, m) == Some(p));
        assert(order_after_fill(
            before,
            market.amm.base_asset_amount_step_size,
            execution.base_asset_amount,
            execution.quote_asset_amount,
            fees.user_fee,
        ) == Ok::<Order, ErrorCode>(order));
        if is_finished(order) {
            let closed = settled.user.positions[p];
            assert(position_index(booked.positions@, m) == Some(p)) by {
                assert(booked.positions@ =~= tallied.positions@.update(p, position));
                lemma_position_index_kept(tallied.positions@, p, position, m);
            }
            assert(closed.open_bids == position.open_bids);
            assert(closed.open_asks == position.open_asks);
            lemma_order_removed_keeps_wf(tallied, order_index, p, closed);
            let removed = tallied.with_position(p, closed).with_order(order_index, Order::empty());
            assert(settled.user.positions =~= removed.positions);
            assert(settled.user.orders =~= removed.orders);
            assert(settled.user == removed);
        } else {
            lemma_fill_booked_keeps_wf(
                tallied,
                order_index,
                order,
                p,
                position,
                execution.base_asset_amount as nat,
            );
            let written = tallied.with_order(order_index, order);
            assert(booked.positions =~= written.with_position(p, position).positions);
            assert(booked == written.with_position(p, position));
        }
    }
}

/// What a fill leaves of the trader's book, seen from the account before
/// the fill: the order with the fill booked is of the size it was, with a
/// filled size that has not gone down and is not beyond that size; the
/// order's slot holds that order, or is empty where nothing of the order is
/// left to rest; the position of the
/// order's market counts one order less exactly in that case; and no other
/// order slot and no other position is touched.
pub open spec fn is_booked_fill(
    before: User,
    after: User,
    order_index: int,
    market_index: u64,
    booked: Order,
) -> bool {
    let p = position_index(before.positions@, market_index)->Some_0;
    &&& 0 <= p < 5
    &&& booked.status == OrderStatus::Open
    &&& booked.base_asset_amount == before.orders[order_index].base_asset_amount
    &&& before.orders[order_index].base_asset_amount_filled <= booked.base_asset_amount_filled
        <= booked.base_asset_amount
    &&& is_finished(booked) ==> {
        &&& after.orders[order_index] == Order::empty()
        &&& after.positions[p].open_orders + 1 == before.positions[p].open_orders
    }
    &&& !is_finished(booked) ==> {
        &&& after.orders[order_index] == booked
        &&& after.positions[p].open_orders == before.positions[p].open_orders
    }
    &&& forall|q: int| 0 <= q < 5 && q != p ==> (#[trigger] after.positions[q]) == before.positions[q]
    &&& forall|k: int|
        0 <= k < 32 && k != order_index ==> (#[trigger] after.orders[k]) == before.orders[k]
}

/// Fulfilling an open order against its own market keeps every account one
/// the engine could have produced. Where it fills, the book is left as
/// `is_booked_fill` says.
pub proof fn lemma_fulfillment_keeps_wf(
    user: User,
    order_index: int,
    market: Market,
    filler: Option<User>,
    referrer: Option<User>,
    user_key: Pubkey,
    filler_key: Pubkey,
    now: i64,
    mark_price_before: u128,
    valid_oracle_price: Option<i128>,
    capacity: Capacity,
    post: Option<PostSwap>,
)
    requires
        user.wf(),
        0 <= order_index < 32,
        is_open_in_market(user, order_index, market),
        is_wf_if_present(filler),
        is_wf_if_present(referrer),
    ensures
        fulfillment(
            user,
            order_index,
            market,
            filler,
            referrer,
            user_key,
            filler_key,
            now,
            mark_price_before,
            valid_oracle_price,
            capacity,
            post,
        ) matches Ok(settled) ==> {
            &&& settled.user.wf()
            &&& is_wf_if_present(settled.filler)
            &&& is_wf_if_present(settled.referrer)
            &&& settled.step matches FulfillmentStep::Filled(filled) ==> is_booked_fill(
                user,
                settled.user,
                order_index,
                market.market_index,
                filled.order_record.order,
            )
        },
{
    let outcome = fulfillment(
        user,
        order_index,
        market,
        filler,
        referrer,
        user_key,
        filler_key,
        now,
        mark_price_before,
        valid_oracle_price,
        capacity,
        post,
    );
    if outcome matches Ok(settled) && settled.step is Filled {
        let swap = Some(post->Some_0.outcome);
        lemma_order_step_keeps_wf(
            user,
            order_index,
            market,
            valid_oracle_price,
            capacity,
            swap,
        );
        let stepped = order_step(user, order_index, market, valid_oracle_price, capacity, swap)->Ok_0;
        let executed = stepped.0;
        let execution = stepped.1->Executed_0;
        let p = position_index(user.positions@, market.market_index)->Some_0;
        assert(executed.orders == user.orders);
        assert forall|q: int| 0 <= q < 5 && q != p implies (#[trigger] executed.positions[q])
            == user.positions[q] by {
            assert(executed.positions@ == user.positions@.update(p, executed.positions[p]));
        }
        lemma_settlement_keeps_wf(
            executed,
            order_index,
            market,
            filler,
            referrer,
            user_key,
            filler_key,
            now,
            mark_price_before,
            execution,
            post->Some_0,
        );
    }
}

/// The amounts of one fill of an order.
pub struct FillAmounts {
    pub base_asset_amount: u128,
    pub quote_asset_amount: u128,
    pub fee: i128,
}

/// An order after a run of fills was booked to it, one after the other.
pub open spec fn order_after_fills(
    order: Order,
    minimum_base_asset_trade_size: u128,
    fills: Seq<FillAmounts>,
) -> Result<Order, ErrorCode>
    decreases fills.len(),
{
    if fills.len() == 0 {
        Ok(order)
    } else {
        match order_after_fills(order, minimum_base_asset_trade_size, fills.drop_last()) {
            Err(e) => Err(e),
            Ok(earlier) => order_after_fill(
                earlier,
                minimum_base_asset_trade_size,
                fills.last().base_asset_amount,
                fills.last().quote_asset_amount,
                fills.last().fee,
            ),
        }
    }
}

/// Over any run of fills that an order of whatever type takes, its filled
/// size never goes down and never goes beyond the order's size, which stays
/// what it was: after any part of the run the filled size lies between
/// what it was at the start and what it is at the end of the run, and that
/// is no more than the order's size.
pub proof fn lemma_filled_size_over_fills(
    order: Order,
    minimum_base_asset_trade_size: u128,
    fills: Seq<FillAmounts>,
    part: int,
)
    requires
        0 <= part <= fills.len(),
        order.base_asset_amount_filled <= order.base_asset_amount,
        order_after_fills(order, minimum_base_asset_trade_size, fills) is Ok,
    ensures
        order_after_fills(order, minimum_base_asset_trade_size, fills.take(part)) is Ok,
        ({
            let midway = order_after_fills(
                order,
                minimum_base_asset_trade_size,
                fills.take(part),
            )->Ok_0;
            let last = order_after_fills(order, minimum_base_asset_trade_size, fills)->Ok_0;
            &&& order.base_asset_amount_filled <= midway.base_asset_amount_filled
                <= last.base_asset_amount_filled <= order.base_asset_amount
            &&& midway.base_asset_amount == order.base_asset_amount
            &&& last.base_asset_amount == order.base_asset_amount
            &&& last.order_type == order.order_type
        }),
    decreases fills.len(),
{
    if fills.len() == 0 {
        assert(fills.take(part) =~= fills);
    } else if part == fills.len() {
        assert(fills.take(part) =~= fills);
        lemma_filled_size_over_fills(
            order,
            minimum_base_asset_trade_size,
            fills.drop_last(),
            part - 1,
        );
        assert(fills.drop_last().take(part - 1) =~= fills.drop_last());
    } else {
        lemma_filled_size_over_fills(order, minimum_base_asset_trade_size, fills.drop_last(), part);
        assert(fills.drop_last().take(part) =~= fills.take(part));
    }
}

/// What a settlement that goes through books.
///
/// The step is a fill of the size and with the risk flag of the execution.
/// The two records carry the amounts of the execution and the trade record
/// id that was the market's next, which has moved on by one. The order in
/// the order record is the order with the fill booked; the order's slot
/// holds it so, or is empty where nothing of the order is left to rest.
pub proof fn lemma_settlement_books_the_execution(
    user: User,
    order_index: int,
    market: Market,
    filler: Option<User>,
    referrer: Option<User>,
    user_key: Pubkey,
    filler_key: Pubkey,
    now: i64,
    mark_price_before: u128,
    execution: Execution,
    post: PostSwap,
)
    requires
        0 <= order_index < 32,
        settlement(
            user,
            order_index,
            market,
            filler,
            referrer,
            user_key,
            filler_key,
            now,
            mark_price_before,
            execution,
            post,
        ) is Ok,
    ensures
        ({
            let settled = settlement(
                user,
                order_index,
                market,
                filler,
                referrer,
                user_key,
                filler_key,
                now,
                mark_price_before,
                execution,
                post,
            )->Ok_0;
            let filled = settled.step->Filled_0;
            let booked = filled.order_record.order;
            &&& settled.step is Filled
            &&& filled.base_asset_amount == execution.base_asset_amount
            &&& filled.potentially_risk_increasing == execution.potentially_risk_increasing
            &&& filled.trade_record == trade_record_of(
                user,
                user_key,
                booked,
                market,
                now,
                mark_price_before,
                execution,
                post,
            )
            &&& filled.order_record == fill_record_of(
                user,
                user_key,
                filler_key,
                booked,
                market,
                now,
                execution,
                post,
            )
            &&& settled.market.next_trade_record_id == market.next_trade_record_id + 1
            &&& order_after_fill(
                user.orders[order_index],
                market.amm.base_asset_amount_step_size,
                execution.base_asset_amount,
                execution.quote_asset_amount,
                post.fees.user_fee,
            ) == Ok::<Order, ErrorCode>(booked)
            &&& settled.user.orders[order_index] == if is_finished(booked) {
                Order::empty()
            } else {
                booked
            }
        }),
{
    let m = market.market_index;
    let fees = post.fees;
    let p = position_index(user.positions@, m)->Some_0;
    lemma_first_match(user.positions@, held_for(m));
    let charged = trader_charged(user, p, fees.user_fee)->Ok_0;
    let tallied = fees_tallied(charged, fees)->Ok_0;
    assert(tallied.orders[order_index] == user.orders[order_index]);
    let booked_user = fill_booked(
        tallied,
        order_index,
        p,
        market.amm.base_asset_amount_step_size,
        execution,
        fees.user_fee,
    )->Ok_0;
    let settled = settlement(
        user,
        order_index,
        market,
        filler,
        referrer,
        user_key,
        filler_key,
        now,
        mark_price_before,
        execution,
        post,
    )->Ok_0;
    assert(settled.user.orders@[order_index] == if is_finished(booked_user.orders[order_index]) {
        Order::empty()
    } else {
        booked_user.orders[order_index]
    });
}

} // verus!
