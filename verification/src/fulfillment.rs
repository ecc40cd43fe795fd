//! Filling orders: the checks before a fill, the fill itself, and the guard
//! on what the fill did to the spread between oracle and mark price.

use crate::auction::{
    auction_price, auction_satisfies_maker, calculate_auction_price,
    does_auction_satisfy_maker_order,
};
use crate::error::ErrorCode;
use crate::events::{OrderRecord, TradeRecord};
use crate::execution::{
    fillable_size, lemma_market_order_below_step_is_refused, order_step, position_after_swap,
    Capacity, ExecutionStep, SwapRequest,
};
use crate::market::Market;
use crate::math::{magnitude, smaller, unsigned_abs};
use crate::oracle::OracleReading;
use crate::order::{Order, OrderStatus, OrderType, Pubkey};
use crate::position::position_index;
use crate::scan::lemma_first_match;
use crate::settlement::{
    fulfill_order_with_amm, fulfillment, is_booked_fill, lemma_fulfillment_keeps_wf,
    lemma_settlement_books_the_execution, settlement, FulfillmentStep, PostSwap,
};
use crate::user::{is_wf_if_present, with_order_id, User};
use vstd::prelude::*;

verus! {

/// What is read before a fill is attempted.
#[derive(Clone, Copy, Debug, PartialEq, Eq)]
pub struct PreFill {
    pub mark_price_before: u128,
    /// The reading of the market's price feed.
    pub oracle: OracleReading,
    pub capacity: Capacity,
    /// How far, in either direction, the spread between oracle and mark
    /// price may go before it counts as too divergent.
    pub max_oracle_mark_spread_pct: u128,
}

/// What a fill did, for the caller to act on.
#[derive(Clone, Copy, Debug, PartialEq, Eq)]
pub struct FillReport {
    pub base_asset_amount: u128,
    /// To be appended to the log of trades.
    pub trade_record: TradeRecord,
    /// To be appended to the log of orders.
    pub order_record: OrderRecord,
    /// The mark price from before the fill, against which the market's
    /// funding rate is to be recomputed now.
    pub funding_reference_price: u128,
}

/// How far a fill got.
#[derive(Clone, Copy, Debug, PartialEq, Eq)]
pub enum FillStep {
    /// The swap has to be made first.
    NeedsSwap(SwapRequest),
    /// Nothing could be filled; nothing was changed.
    NotFilled,
    Filled(FillReport),
}

/// Everything an attempt to fill an order leaves behind.
pub struct FillOutcome {
    pub user: User,
    pub market: Market,
    pub filler: Option<User>,
    pub referrer: Option<User>,
    pub step: FillStep,
}

/// Whether a spread between oracle and mark price is beyond the limit.
pub open spec fn too_divergent(oracle_mark_spread_pct: i128, limit: u128) -> bool {
    magnitude(oracle_mark_spread_pct as int) > limit
}

/// Whether a fill has to be refused for what it did to the spread between
/// oracle and mark price.
///
/// With a valid oracle, a fill is refused where it leaves the spread beyond
/// the limit and either the spread was within the limit before, or the fill
/// was risk-increasing and did not narrow the spread.
pub open spec fn spread_guard_trips(
    spread_before: i128,
    spread_after: i128,
    limit: u128,
    oracle_is_valid: bool,
    potentially_risk_increasing: bool,
) -> bool {
    &&& oracle_is_valid
    &&& too_divergent(spread_after, limit)
    &&& {
        ||| !too_divergent(spread_before, limit)
        ||| (magnitude(spread_after as int) >= magnitude(spread_before as int)
            && potentially_risk_increasing)
    }
}

/// Decides whether the spread guard refuses a fill.
pub fn is_fill_blocked_by_spread(
    spread_before: i128,
    spread_after: i128,
    limit: u128,
    oracle_is_valid: bool,
    potentially_risk_increasing: bool,
) -> (r: bool)
    ensures
        r == spread_guard_trips(
            spread_before,
            spread_after,
            limit,
            oracle_is_valid,
            potentially_risk_increasing,
        ),
{
    let before = unsigned_abs(spread_before);
    let after = unsigned_abs(spread_after);
    let too_divergent_before = before > limit;
    let too_divergent_after = after > limit;
    if too_divergent_after && !too_divergent_before && oracle_is_valid {
        return true;
    }
    too_divergent_after && after >= before && oracle_is_valid && potentially_risk_increasing
}

/// What an attempt to fill the order with id `order_id` comes to.
///
/// The order has to exist (`OrderDoesNotExist`) and be open
/// (`OrderNotOpen`); the market handed in has to be the order's
/// (`MarketNotFound`) and its curve refreshed in this slot
/// (`AMMNotUpdatedInSameSlot`). The order is then fulfilled, priced against
/// the oracle only where the reading is valid. A fill that the spread guard
/// refuses is rejected as a whole (`OracleMarkSpreadLimit`). A fill that
/// stands asks for the market's funding rate to be recomputed against the
/// mark price from before the fill.
pub open spec fn fill(
    order_id: u64,
    user: User,
    market: Market,
    filler: Option<User>,
    referrer: Option<User>,
    user_key: Pubkey,
    filler_key: Pubkey,
    now: i64,
    slot: u64,
    pre: PreFill,
    post: Option<PostSwap>,
) -> Result<FillOutcome, ErrorCode> {
    match user.open_order_index_by_id(order_id) {
        Err(e) => Err(e),
        Ok(i) => if market.market_index != user.orders[i].market_index {
            Err(ErrorCode::MarketNotFound)
        } else if !market.spec_is_fresh_in(slot) {
            Err(ErrorCode::AMMNotUpdatedInSameSlot)
        } else {
            match fulfillment(
                user,
                i,
                market,
                filler,
                referrer,
                user_key,
                filler_key,
                now,
                pre.mark_price_before,
                valid_price_of(pre.oracle),
                pre.capacity,
                post,
            ) {
                Err(e) => Err(e),
                Ok(settled) => match settled.step {
                    FulfillmentStep::NeedsSwap(request) => Ok(
                        FillOutcome {
                            user,
                            market,
                            filler,
                            referrer,
                            step: FillStep::NeedsSwap(request),
                        },
                    ),
                    FulfillmentStep::NotFilled => Ok(
                        FillOutcome { user, market, filler, referrer, step: FillStep::NotFilled },
                    ),
                    FulfillmentStep::Filled(filled) => if spread_guard_trips(
                        market.amm.last_oracle_mark_spread_pct,
                        post->Some_0.oracle_mark_spread_pct_after,
                        pre.max_oracle_mark_spread_pct,
                        pre.oracle.is_valid,
                        filled.potentially_risk_increasing,
                    ) {
                        Err(ErrorCode::OracleMarkSpreadLimit)
                    } else {
                        Ok(
                            FillOutcome {
                                user: settled.user,
                                market: settled.market,
                                filler: settled.filler,
                                referrer: settled.referrer,
                                step: FillStep::Filled(
                                    FillReport {
                                        base_asset_amount: filled.base_asset_amount,
                                        trade_record: filled.trade_record,
                                        order_record: filled.order_record,
                                        funding_reference_price: pre.mark_price_before,
                                    },
                                ),
                            },
                        )
                    },
                },
            }
        },
    }
}

/// The oracle price a fill may price an order against: the reading's,
/// where the reading is valid.
pub open spec fn valid_price_of(oracle: OracleReading) -> Option<i128> {
    if oracle.is_valid {
        Some(oracle.price)
    } else {
        None
    }
}

/// Fills an open order against its market, for a trader whose funding is
/// settled.
///
/// The call is made once to learn what to swap, and again with what came
/// of the swap. After a result of `Filled` the caller appends the two
/// records to its logs and has the market's funding rate recomputed
/// against the reference price in the report. Every account changes as
/// `fill` says where the result is `Filled`, and none changes otherwise.
pub fn fill_order(
    order_id: u64,
    user: &mut User,
    user_key: &Pubkey,
    market: &mut Market,
    filler: &mut Option<User>,
    filler_key: &Pubkey,
    referrer: &mut Option<User>,
    now: i64,
    slot: u64,
    pre: &PreFill,
    post: Option<PostSwap>,
) -> (r: Result<FillStep, ErrorCode>)
    ensures
        match fill(
            order_id,
            *old(user),
            *old(market),
            *old(filler),
            *old(referrer),
            *user_key,
            *filler_key,
            now,
            slot,
            *pre,
            post,
        ) {
            Ok(settled) => {
                &&& r == Ok::<FillStep, ErrorCode>(settled.step)
                &&& *final(user) == settled.user
                &&& *final(market) == settled.market
                &&& *final(filler) == settled.filler
                &&& *final(referrer) == settled.referrer
            },
            Err(e) => {
                &&& r == Err::<FillStep, ErrorCode>(e)
                &&& *final(user) == *old(user)
                &&& *final(market) == *old(market)
                &&& *final(filler) == *old(filler)
                &&& *final(referrer) == *old(referrer)
            },
        },
        old(user).wf() && is_wf_if_present(*old(filler)) && is_wf_if_present(*old(referrer)) ==> {
            &&& final(user).wf()
            &&& is_wf_if_present(*final(filler))
            &&& is_wf_if_present(*final(referrer))
        },
        !(r matches Ok(FillStep::Filled(_))) ==> {
            &&& *final(user) == *old(user)
            &&& *final(market) == *old(market)
            &&& *final(filler) == *old(filler)
            &&& *final(referrer) == *old(referrer)
        },
{
    proof {
        if user.wf() && is_wf_if_present(*filler) && is_wf_if_present(*referrer) {
            lemma_fill_keeps_wf(
                order_id,
                *user,
                *market,
                *filler,
                *referrer,
                *user_key,
                *filler_key,
                now,
                slot,
                *pre,
                post,
            );
        }
    }
    let order_index = user.find_open_order_by_id(order_id)?;
    if market.market_index != user.orders[order_index].market_index {
        return Err(ErrorCode::MarketNotFound);
    }
    if !market.is_fresh_in(slot) {
        return Err(ErrorCode::AMMNotUpdatedInSameSlot);
    }
    let spread_before = market.amm.last_oracle_mark_spread_pct;
    let valid_oracle_price = if pre.oracle.is_valid {
        Some(pre.oracle.price)
    } else {
        None
    };
    let mut user_after = *user;
    let mut market_after = *market;
    let mut filler_after = *filler;
    let mut referrer_after = *referrer;
    let step = fulfill_order_with_amm(
        &mut user_after,
        order_index,
        &mut market_after,
        &mut filler_after,
        &mut referrer_after,
        user_key,
        filler_key,
        now,
        pre.mark_price_before,
        valid_oracle_price,
        pre.capacity,
        post,
    )?;
    match step {
        FulfillmentStep::NeedsSwap(request) => Ok(FillStep::NeedsSwap(request)),
        FulfillmentStep::NotFilled => Ok(FillStep::NotFilled),
        FulfillmentStep::Filled(filled) => {
            let spread_after = match post {
                Some(post) => post.oracle_mark_spread_pct_after,
                None => spread_before,
            };
            if is_fill_blocked_by_spread(
                spread_before,
                spread_after,
                pre.max_oracle_mark_spread_pct,
                pre.oracle.is_valid,
                filled.potentially_risk_increasing,
            ) {
                return Err(ErrorCode::OracleMarkSpreadLimit);
            }
            *user = user_after;
            *market = market_after;
            *filler = filler_after;
            *referrer = referrer_after;
            Ok(
                FillStep::Filled(
                    FillReport {
                        base_asset_amount: filled.base_asset_amount,
                        trade_record: filled.trade_record,
                        order_record: filled.order_record,
                        funding_reference_price: pre.mark_price_before,
                    },
                ),
            )
        },
    }
}

/// What matching a taker's order against a maker's order comes to: the
/// taker's auction price at `now` has to satisfy the maker's limit
/// (`AuctionPriceDoesNotSatisfyMaker` otherwise).
pub open spec fn taker_meets_maker(
    taker: User,
    taker_order_index: int,
    maker: User,
    maker_order_index: int,
    now: i64,
    auction_duration: i64,
) -> Result<(), ErrorCode> {
    match auction_price(taker.orders[taker_order_index], now, auction_duration) {
        Err(e) => Err(e),
        Ok(price) => if auction_satisfies_maker(maker.orders[maker_order_index], price) {
            Ok(())
        } else {
            Err(ErrorCode::AuctionPriceDoesNotSatisfyMaker)
        },
    }
}

/// Checks that a taker's order can trade with a maker's order at the
/// taker's auction price. Neither account is changed: the check is all
/// that a direct match between two orders does.
pub fn fill_taker_against_maker(
    taker: &mut User,
    taker_order_index: usize,
    maker: &mut User,
    maker_order_index: usize,
    now: i64,
    auction_duration: i64,
) -> (r: Result<(), ErrorCode>)
    requires
        taker_order_index < 32,
        maker_order_index < 32,
    ensures
        r == taker_meets_maker(
            *old(taker),
            taker_order_index as int,
            *old(maker),
            maker_order_index as int,
            now,
            auction_duration,
        ),
        *final(taker) == *old(taker),
        *final(maker) == *old(maker),
{
    let auction_price = calculate_auction_price(
        &taker.orders[taker_order_index],
        now,
        auction_duration,
    )?;
    if !does_auction_satisfy_maker_order(&maker.orders[maker_order_index], auction_price) {
        return Err(ErrorCode::AuctionPriceDoesNotSatisfyMaker);
    }
    Ok(())
}

/// Filling an order keeps every account one the engine could have
/// produced. Where it fills, the book is left as `is_booked_fill` says: in
/// particular the filled size of the order has not gone down, and where
/// the order stays open it has not gone beyond the order's size.
pub proof fn lemma_fill_keeps_wf(
    order_id: u64,
    user: User,
    market: Market,
    filler: Option<User>,
    referrer: Option<User>,
    user_key: Pubkey,
    filler_key: Pubkey,
    now: i64,
    slot: u64,
    pre: PreFill,
    post: Option<PostSwap>,
)
    requires
        user.wf(),
        is_wf_if_present(filler),
        is_wf_if_present(referrer),
    ensures
        fill(
            order_id,
            user,
            market,
            filler,
            referrer,
            user_key,
            filler_key,
            now,
            slot,
            pre,
            post,
        ) matches Ok(settled) ==> {
            &&& settled.user.wf()
            &&& is_wf_if_present(settled.filler)
            &&& is_wf_if_present(settled.referrer)
            &&& settled.step matches FillStep::Filled(filled) ==> is_booked_fill(
                user,
                settled.user,
                user.order_index_by_id(order_id)->Some_0,
                market.market_index,
                filled.order_record.order,
            )
        },
{
    let outcome = fill(
        order_id,
        user,
        market,
        filler,
        referrer,
        user_key,
        filler_key,
        now,
        slot,
        pre,
        post,
    );
    if outcome is Ok {
        lemma_first_match(user.orders@, with_order_id(order_id));
        let i = user.order_index_by_id(order_id)->Some_0;
        lemma_fulfillment_keeps_wf(
            user,
            i,
            market,
            filler,
            referrer,
            user_key,
            filler_key,
            now,
            pre.mark_price_before,
            valid_price_of(pre.oracle),
            pre.capacity,
            post,
        );
    }
}

/// A fill that brings the filled size of an order to the order's size
/// empties the order's slot and takes exactly one order out of the count of
/// the position in the order's market; no other position's count changes.
pub proof fn lemma_complete_fill_retires_order(
    order_id: u64,
    user: User,
    market: Market,
    filler: Option<User>,
    referrer: Option<User>,
    user_key: Pubkey,
    filler_key: Pubkey,
    now: i64,
    slot: u64,
    pre: PreFill,
    post: Option<PostSwap>,
)
    requires
        user.wf(),
        is_wf_if_present(filler),
        is_wf_if_present(referrer),
        fill(order_id, user, market, filler, referrer, user_key, filler_key, now, slot, pre, post)
            matches Ok(settled) && settled.step matches FillStep::Filled(filled)
            && filled.order_record.order.base_asset_amount_filled
            == filled.order_record.order.base_asset_amount,
    ensures
        ({
            let after = fill(
                order_id,
                user,
                market,
                filler,
                referrer,
                user_key,
                filler_key,
                now,
                slot,
                pre,
                post,
            )->Ok_0.user;
            let i = user.order_index_by_id(order_id)->Some_0;
            let p = position_index(user.positions@, market.market_index)->Some_0;
            &&& 0 <= i < 32 && 0 <= p < 5
            &&& user.orders[i].status == OrderStatus::Open
            &&& user.positions[p].spec_is_for(user.orders[i].market_index)
            &&& after.orders[i].status == OrderStatus::Init
            &&& after.orders[i] == Order::empty()
            &&& after.positions[p].open_orders + 1 == user.positions[p].open_orders
            &&& forall|q: int|
                0 <= q < 5 && q != p ==> (#[trigger] after.positions[q]).open_orders
                    == user.positions[q].open_orders
        }),
{
    lemma_fill_keeps_wf(
        order_id,
        user,
        market,
        filler,
        referrer,
        user_key,
        filler_key,
        now,
        slot,
        pre,
        post,
    );
    lemma_first_match(user.orders@, with_order_id(order_id));
    let i = user.order_index_by_id(order_id)->Some_0;
    crate::user::lemma_open_order_is_counted(user, i);
}

/// With a valid oracle, no fill stands that carries the spread between
/// oracle and mark price beyond the limit when it was within the limit
/// before: where the order would have been filled, the fill is rejected as
/// a whole.
pub proof fn lemma_fill_that_breaches_the_spread_limit_is_rejected(
    order_id: u64,
    user: User,
    market: Market,
    filler: Option<User>,
    referrer: Option<User>,
    user_key: Pubkey,
    filler_key: Pubkey,
    now: i64,
    slot: u64,
    pre: PreFill,
    post: PostSwap,
)
    requires
        pre.oracle.is_valid,
        !too_divergent(market.amm.last_oracle_mark_spread_pct, pre.max_oracle_mark_spread_pct),
        too_divergent(post.oracle_mark_spread_pct_after, pre.max_oracle_mark_spread_pct),
    ensures
        !(fill(
            order_id,
            user,
            market,
            filler,
            referrer,
            user_key,
            filler_key,
            now,
            slot,
            pre,
            Some(post),
        ) matches Ok(outcome) && outcome.step is Filled),
{
}

/// Filling an open limit or trigger order of which nothing can be filled,
/// in its own market and with the curve fresh, is no error: nothing is
/// filled and nothing is changed.
pub proof fn lemma_nothing_fillable_fills_nothing(
    order_id: u64,
    user: User,
    market: Market,
    filler: Option<User>,
    referrer: Option<User>,
    user_key: Pubkey,
    filler_key: Pubkey,
    now: i64,
    slot: u64,
    pre: PreFill,
    post: Option<PostSwap>,
)
    requires
        user.open_order_index_by_id(order_id) is Ok,
        user.orders[user.open_order_index_by_id(order_id)->Ok_0].order_type != OrderType::Market,
        user.orders[user.open_order_index_by_id(order_id)->Ok_0].market_index
            == market.market_index,
        market.spec_is_fresh_in(slot),
        fillable_size(pre.capacity, market.amm.base_asset_amount_step_size) == 0,
    ensures
        fill(order_id, user, market, filler, referrer, user_key, filler_key, now, slot, pre, post)
            == Ok::<FillOutcome, ErrorCode>(
            (FillOutcome { user, market, filler, referrer, step: FillStep::NotFilled }),
        ),
{
}

/// A market order of which the curve traded less than one step of the
/// market is never filled, and no account is changed by the attempt.
///
/// The error is `TradeSizeTooSmall` where the order is filled in its own
/// market with the curve fresh, and the position of the market can take the
/// profit or loss of the trade. (That position is there in every account
/// that the engine could have produced.) Otherwise the market that is not
/// the order's, the stale curve, the missing position or the profit or loss
/// that does not fit is found first.
pub proof fn lemma_market_order_below_step_is_not_filled(
    order_id: u64,
    user: User,
    market: Market,
    filler: Option<User>,
    referrer: Option<User>,
    user_key: Pubkey,
    filler_key: Pubkey,
    now: i64,
    slot: u64,
    pre: PreFill,
    post: PostSwap,
)
    requires
        user.open_order_index_by_id(order_id) is Ok,
        user.orders[user.open_order_index_by_id(order_id)->Ok_0].order_type == OrderType::Market,
        post.outcome.base_asset_amount < market.amm.base_asset_amount_step_size,
    ensures
        fill(
            order_id,
            user,
            market,
            filler,
            referrer,
            user_key,
            filler_key,
            now,
            slot,
            pre,
            Some(post),
        ) is Err,
        ({
            let i = user.open_order_index_by_id(order_id)->Ok_0;
            let held = position_index(user.positions@, market.market_index);
            market.market_index == user.orders[i].market_index && market.spec_is_fresh_in(slot)
                && (held is Some || user.wf()) && position_after_swap(
                user.positions[held->Some_0],
                post.outcome,
            ) is Ok ==> fill(
                order_id,
                user,
                market,
                filler,
                referrer,
                user_key,
                filler_key,
                now,
                slot,
                pre,
                Some(post),
            ) == Err::<FillOutcome, ErrorCode>(ErrorCode::TradeSizeTooSmall)
        }),
{
    let i = user.open_order_index_by_id(order_id)->Ok_0;
    lemma_first_match(user.orders@, with_order_id(order_id));
    lemma_market_order_below_step_is_refused(user, i, market, post.outcome);
    if user.wf() && market.market_index == user.orders[i].market_index {
        crate::user::lemma_open_order_is_counted(user, i);
    }
}

/// What the fill of a limit or trigger order reports.
///
/// A fill that stands reports the size that could be filled: the smaller
/// of what the trader and what the market could execute. The order shows
/// that much more filled, of the size it had; its slot holds it so, or is
/// empty where the order is filled in full. The records carry the same
/// amounts and the trade record id that was the market's next, which has
/// moved on by one. The report names the mark price from before the fill
/// as the reference for the funding rate.
pub proof fn lemma_fill_reports_the_fillable_size(
    order_id: u64,
    user: User,
    market: Market,
    filler: Option<User>,
    referrer: Option<User>,
    user_key: Pubkey,
    filler_key: Pubkey,
    now: i64,
    slot: u64,
    pre: PreFill,
    post: PostSwap,
)
    requires
        user.open_order_index_by_id(order_id) is Ok,
        user.orders[user.open_order_index_by_id(order_id)->Ok_0].order_type != OrderType::Market,
        fill(
            order_id,
            user,
            market,
            filler,
            referrer,
            user_key,
            filler_key,
            now,
            slot,
            pre,
            Some(post),
        ) matches Ok(outcome) && outcome.step is Filled,
    ensures
        ({
            let outcome = fill(
                order_id,
                user,
                market,
                filler,
                referrer,
                user_key,
                filler_key,
                now,
                slot,
                pre,
                Some(post),
            )->Ok_0;
            let report = outcome.step->Filled_0;
            let i = user.open_order_index_by_id(order_id)->Ok_0;
            let before = user.orders[i];
            let booked = report.order_record.order;
            let size = smaller(pre.capacity.market_can_execute, pre.capacity.user_can_execute);
            &&& size == fillable_size(pre.capacity, market.amm.base_asset_amount_step_size)
            &&& size >= market.amm.base_asset_amount_step_size
            &&& report.base_asset_amount == size
            &&& report.funding_reference_price == pre.mark_price_before
            &&& report.order_record.base_asset_amount_filled == size
            &&& report.order_record.quote_asset_amount_filled == post.outcome.quote_asset_amount
            &&& report.order_record.trade_record_id == market.next_trade_record_id
            &&& report.trade_record.record_id == market.next_trade_record_id
            &&& report.trade_record.base_asset_amount == size
            &&& report.trade_record.quote_asset_amount == post.outcome.quote_asset_amount
            &&& outcome.market.next_trade_record_id == market.next_trade_record_id + 1
            &&& booked.base_asset_amount == before.base_asset_amount
            &&& booked.base_asset_amount_filled == before.base_asset_amount_filled + size
            &&& booked.base_asset_amount_filled <= booked.base_asset_amount
            &&& booked.quote_asset_amount_filled == before.quote_asset_amount_filled
                + post.outcome.quote_asset_amount
            &&& booked.status == OrderStatus::Open
            &&& outcome.user.orders[i] == if booked.base_asset_amount_filled
                == booked.base_asset_amount {
                Order::empty()
            } else {
                booked
            }
        }),
{
    let i = user.open_order_index_by_id(order_id)->Ok_0;
    lemma_first_match(user.orders@, with_order_id(order_id));
    let valid_oracle_price = valid_price_of(pre.oracle);
    let settled = fulfillment(
        user,
        i,
        market,
        filler,
        referrer,
        user_key,
        filler_key,
        now,
        pre.mark_price_before,
        valid_oracle_price,
        pre.capacity,
        Some(post),
    )->Ok_0;
    let stepped = order_step(
        user,
        i,
        market,
        valid_oracle_price,
        pre.capacity,
        Some(post.outcome),
    )->Ok_0;
    let executed = stepped.0;
    assert(executed.orders[i] == user.orders[i]) by {
        if executed != user {
            let p = position_index(user.positions@, market.market_index)->Some_0;
            assert(executed == user.with_position(p, executed.positions[p]));
        }
    }
    lemma_settlement_books_the_execution(
        executed,
        i,
        market,
        filler,
        referrer,
        user_key,
        filler_key,
        now,
        pre.mark_price_before,
        stepped.1->Executed_0,
        post,
    );
}

/// When a fill is owed.
///
/// The order is open under the id given; the market is the order's and its
/// curve is fresh; the execution of the order against the outcome of the
/// swap goes through and fills a size above zero; the settlement of that
/// execution goes through; and the spread guard does not refuse the fill.
pub open spec fn fill_is_owed(
    order_id: u64,
    user: User,
    market: Market,
    filler: Option<User>,
    referrer: Option<User>,
    user_key: Pubkey,
    filler_key: Pubkey,
    now: i64,
    slot: u64,
    pre: PreFill,
    post: PostSwap,
) -> bool {
    &&& user.open_order_index_by_id(order_id) matches Ok(i)
    &&& market.market_index == user.orders[i].market_index
    &&& market.spec_is_fresh_in(slot)
    &&& order_step(
        user,
        i,
        market,
        valid_price_of(pre.oracle),
        pre.capacity,
        Some(post.outcome),
    ) matches Ok((executed, step))
    &&& step matches ExecutionStep::Executed(execution)
    &&& execution.base_asset_amount > 0
    &&& settlement(
        executed,
        i,
        market,
        filler,
        referrer,
        user_key,
        filler_key,
        now,
        pre.mark_price_before,
        execution,
        post,
    ) is Ok
    &&& !spread_guard_trips(
        market.amm.last_oracle_mark_spread_pct,
        post.oracle_mark_spread_pct_after,
        pre.max_oracle_mark_spread_pct,
        pre.oracle.is_valid,
        execution.potentially_risk_increasing,
    )
}

/// A fill stands exactly when `fill_is_owed` says so. It then leaves every
/// account as the settlement of the execution does, reports the size of
/// the execution, and names the mark price from before the fill as the
/// reference for the funding rate.
pub proof fn lemma_fill_is_owed(
    order_id: u64,
    user: User,
    market: Market,
    filler: Option<User>,
    referrer: Option<User>,
    user_key: Pubkey,
    filler_key: Pubkey,
    now: i64,
    slot: u64,
    pre: PreFill,
    post: PostSwap,
)
    ensures
        fill_is_owed(
            order_id,
            user,
            market,
            filler,
            referrer,
            user_key,
            filler_key,
            now,
            slot,
            pre,
            post,
        ) <==> (fill(
            order_id,
            user,
            market,
            filler,
            referrer,
            user_key,
            filler_key,
            now,
            slot,
            pre,
            Some(post),
        ) matches Ok(outcome) && outcome.step is Filled),
        fill_is_owed(
            order_id,
            user,
            market,
            filler,
            referrer,
            user_key,
            filler_key,
            now,
            slot,
            pre,
            post,
        ) ==> ({
            let i = user.open_order_index_by_id(order_id)->Ok_0;
            let stepped = order_step(
                user,
                i,
                market,
                valid_price_of(pre.oracle),
                pre.capacity,
                Some(post.outcome),
            )->Ok_0;
            let settled = settlement(
                stepped.0,
                i,
                market,
                filler,
                referrer,
                user_key,
                filler_key,
                now,
                pre.mark_price_before,
                stepped.1->Executed_0,
                post,
            )->Ok_0;
            let outcome = fill(
                order_id,
                user,
                market,
                filler,
                referrer,
                user_key,
                filler_key,
                now,
                slot,
                pre,
                Some(post),
            )->Ok_0;
            &&& outcome.user == settled.user
            &&& outcome.market == settled.market
            &&& outcome.filler == settled.filler
            &&& outcome.referrer == settled.referrer
            &&& outcome.step->Filled_0.base_asset_amount == stepped.1->Executed_0.base_asset_amount
            &&& outcome.step->Filled_0.funding_reference_price == pre.mark_price_before
        }),
{
    if user.open_order_index_by_id(order_id) is Ok {
        let i = user.open_order_index_by_id(order_id)->Ok_0;
        lemma_first_match(user.orders@, with_order_id(order_id));
        let stepped = order_step(
            user,
            i,
            market,
            valid_price_of(pre.oracle),
            pre.capacity,
            Some(post.outcome),
        );
        if stepped is Ok && stepped->Ok_0.1 is Executed {
            let executed = stepped->Ok_0.0;
            let execution = stepped->Ok_0.1->Executed_0;
            if settlement(
                executed,
                i,
                market,
                filler,
                referrer,
                user_key,
                filler_key,
                now,
                pre.mark_price_before,
                execution,
                post,
            ) is Ok {
                lemma_settlement_books_the_execution(
                    executed,
                    i,
                    market,
                    filler,
                    referrer,
                    user_key,
                    filler_key,
                    now,
                    pre.mark_price_before,
                    execution,
                    post,
                );
            }
        }
    }
}

} // verus!
