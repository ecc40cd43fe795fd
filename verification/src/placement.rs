//! Placing orders: finding a slot, sizing the order, taking its exposure
//! into the position, and committing it once it is validated and the
//! trader's margin allows it.

use crate::error::ErrorCode;
use crate::events::{OrderAction, OrderRecord};
use crate::execution::opposes;
use crate::market::Market;
use crate::math::{magnitude, standardize_base_asset_amount, standardized, unsigned_abs};
use crate::oracle::{get_valid_oracle_price, valid_oracle_price, OracleReading};
use crate::order::{
    default_pubkey, null_pubkey, Order, OrderDiscountTier, OrderParams, OrderStatus,
    PositionDirection, Pubkey,
};
use crate::position::{
    add_new_position, available, free_position_index, get_position_index, held_for,
    increase_open_bids_and_asks, position_index, MarketPosition,
};
use crate::scan::{is_first_match, lemma_first_match, lemma_first_match_is, lemma_first_match_none};
use crate::user::{
    covers_resting_orders, lemma_open_orders_in_update, lemma_open_orders_in_zero,
    lemma_unfilled_in_update, open_in, open_orders_in, vacant, with_user_order_id, User,
};
use vstd::prelude::*;

verus! {

/// The two ends of an order's auction price path.
#[derive(Clone, Copy, Debug, PartialEq, Eq)]
pub struct AuctionPrices {
    pub start_price: u128,
    pub end_price: u128,
}

/// What the pricing and risk side has said so far about an order that is
/// being placed. An answer that has not been asked for yet is `None`.
#[derive(Clone, Copy, Debug, PartialEq, Eq)]
pub struct PlacementAnswers {
    pub auction: Option<AuctionPrices>,
    /// Whether the order passed validation, and if not, why not.
    pub validation: Option<Result<(), ErrorCode>>,
    /// Whether the trader, with the order in place, meets the initial
    /// margin requirement.
    pub meets_initial_margin_requirement: Option<bool>,
}

/// How far a placement got: it needs an answer, or the order is placed.
#[derive(Clone, Copy, Debug, PartialEq, Eq)]
pub enum Placement {
    /// The auction price path for an order of this direction and size.
    NeedsAuctionPrices { direction: PositionDirection, base_asset_amount: u128 },
    /// Validation of the order as it would be placed.
    NeedsValidation { order: Order, valid_oracle_price: Option<i128> },
    /// The margin check on the account as it would stand with the order.
    NeedsMarginCheck { user: User },
    Placed(OrderRecord),
}

/// The size an order is placed with.
///
/// It is the size asked for, rounded down to the market's step. One case
/// apart: a reduce-only order that runs against the trader's position and
/// comes within one step of the position's size is sized to close the
/// position exactly.
pub open spec fn order_size(
    params: OrderParams,
    step_size: u128,
    position_base_asset_amount: i128,
    standardized_base_asset_amount: u128,
) -> u128 {
    let position_size = magnitude(position_base_asset_amount as int);
    if params.reduce_only && standardized_base_asset_amount != 0 && opposes(
        params.direction,
        position_base_asset_amount,
    ) && magnitude(position_size - standardized_base_asset_amount) <= step_size {
        position_size as u128
    } else {
        standardized_base_asset_amount
    }
}

/// Sizes an order from what the trader asked for, already rounded to the
/// market's step, and the position it would trade against.
pub fn get_base_asset_amount_for_order(
    params: &OrderParams,
    market: &Market,
    position: &MarketPosition,
    standardized_base_asset_amount: u128,
) -> (r: u128)
    ensures
        r == order_size(
            *params,
            market.amm.base_asset_amount_step_size,
            position.base_asset_amount,
            standardized_base_asset_amount,
        ),
{
    if !params.reduce_only || standardized_base_asset_amount == 0 {
        return standardized_base_asset_amount;
    }
    let against = match params.direction {
        PositionDirection::Long => position.base_asset_amount < 0,
        PositionDirection::Short => position.base_asset_amount > 0,
    };
    if !against {
        return standardized_base_asset_amount;
    }
    let position_size = unsigned_abs(position.base_asset_amount);
    let difference = if position_size >= standardized_base_asset_amount {
        position_size - standardized_base_asset_amount
    } else {
        standardized_base_asset_amount - position_size
    };
    if difference <= market.amm.base_asset_amount_step_size {
        position_size
    } else {
        standardized_base_asset_amount
    }
}

/// Where a new order would sit, and what it would do to the position of
/// its market.
#[derive(Clone, Copy, Debug, PartialEq, Eq)]
pub struct OrderDraft {
    pub order_index: usize,
    pub position_index: usize,
    /// The position with the order counted and its size added to the open
    /// interest on its side.
    pub position: MarketPosition,
    /// The net size of the position, which the order notes.
    pub user_base_asset_amount: i128,
    pub base_asset_amount: u128,
    pub worst_case_before: i128,
}

/// The slot of the trader's position in a market, and the position there:
/// the one held, or a fresh one in the first free slot.
pub open spec fn resolved_position(positions: Seq<MarketPosition>, market_index: u64) -> Result<
    (int, MarketPosition),
    ErrorCode,
> {
    match position_index(positions, market_index) {
        Some(p) => Ok((p, positions[p])),
        None => match free_position_index(positions) {
            Some(p) => Ok((p, MarketPosition::fresh(market_index))),
            None => Err(ErrorCode::MaxNumberOfPositions),
        },
    }
}

/// The first part of a placement, which asks nobody anything.
///
/// The order goes to the first empty slot (`MaxNumberOfOrders` where there
/// is none). An id chosen by the trader, where it is not zero, must not be
/// carried by any order in the account (`UserOrderIdAlreadyInUse`). The
/// market handed in has to be the one the order names (`MarketNotFound`).
/// The position is the trader's position in the market or a fresh one
/// (`MaxNumberOfPositions`); its worst-case exposure is noted, then the
/// order is counted and its size added to the open interest on its side.
pub open spec fn order_draft(user: User, market: Market, params: OrderParams) -> Result<
    OrderDraft,
    ErrorCode,
> {
    match user.free_order_index() {
        None => Err(ErrorCode::MaxNumberOfOrders),
        Some(i) => if params.user_order_id > 0 && user.order_index_by_user_order_id(
            params.user_order_id,
        ) is Some {
            Err(ErrorCode::UserOrderIdAlreadyInUse)
        } else if market.market_index != params.market_index {
            Err(ErrorCode::MarketNotFound)
        } else {
            match resolved_position(user.positions@, params.market_index) {
                Err(e) => Err(e),
                Ok((p, position)) => match position.worst_case() {
                    Err(e) => Err(e),
                    Ok(worst_case_before) => match position.with_order_opened() {
                        Err(e) => Err(e),
                        Ok(counted) => if market.amm.base_asset_amount_step_size == 0 {
                            Err(ErrorCode::MathError)
                        } else {
                            let size = order_size(
                                params,
                                market.amm.base_asset_amount_step_size,
                                position.base_asset_amount,
                                standardized(
                                    params.base_asset_amount,
                                    market.amm.base_asset_amount_step_size,
                                ),
                            );
                            match counted.with_more_open(params.direction, size) {
                                Err(e) => Err(e),
                                Ok(exposed) => Ok(
                                    OrderDraft {
                                        order_index: i as usize,
                                        position_index: p as usize,
                                        position: exposed,
                                        user_base_asset_amount: position.base_asset_amount,
                                        base_asset_amount: size,
                                        worst_case_before,
                                    },
                                ),
                            }
                        },
                    },
                },
            }
        },
    }
}

/// Finds the slot for a new order: the first that holds none.
/// `MaxNumberOfOrders` where every slot holds one.
pub fn find_order_slot(user: &User) -> (r: Result<usize, ErrorCode>)
    ensures
        match user.free_order_index() {
            Some(i) => r == Ok::<usize, ErrorCode>(i as usize) && 0 <= i < 32,
            None => r == Err::<usize, ErrorCode>(ErrorCode::MaxNumberOfOrders),
        },
{
    proof {
        lemma_first_match(user.orders@, vacant());
    }
    match user.find_free_order_slot() {
        Some(i) => Ok(i),
        None => Err(ErrorCode::MaxNumberOfOrders),
    }
}

/// Checks that an id of the trader's choosing is free: it is zero, which
/// is no id, or no order in the account carries it
/// (`UserOrderIdAlreadyInUse` otherwise).
pub fn check_user_order_id(user: &User, user_order_id: u8) -> (r: Result<(), ErrorCode>)
    ensures
        r is Ok <==> !(user_order_id > 0 && user.order_index_by_user_order_id(user_order_id)
            is Some),
        r is Err ==> r == Err::<(), ErrorCode>(ErrorCode::UserOrderIdAlreadyInUse),
{
    if user_order_id > 0 && user.find_order_by_user_order_id(user_order_id).is_some() {
        return Err(ErrorCode::UserOrderIdAlreadyInUse);
    }
    Ok(())
}

/// Drafts an order: finds its slot and its position, and sizes it.
pub fn draft_order(user: &User, market: &Market, params: &OrderParams) -> (r: Result<
    OrderDraft,
    ErrorCode,
>)
    ensures
        r == order_draft(*user, *market, *params),
        r matches Ok(draft) ==> draft.order_index < 32 && draft.position_index < 5,
{
    let order_index = find_order_slot(user)?;
    check_user_order_id(user, params.user_order_id)?;
    if market.market_index != params.market_index {
        return Err(ErrorCode::MarketNotFound);
    }
    let (position_index, held) = resolve_position(&user.positions, params.market_index)?;
    let worst_case_before = held.worst_case_base_asset_amount()?;
    let mut position = held;
    position.open_orders = match held.open_orders.checked_add(1) {
        Some(count) => count,
        None => { return Err(ErrorCode::MathError); },
    };
    let standardized_base_asset_amount = standardize_base_asset_amount(
        params.base_asset_amount,
        market.amm.base_asset_amount_step_size,
    )?;
    let base_asset_amount = get_base_asset_amount_for_order(
        params,
        market,
        &held,
        standardized_base_asset_amount,
    );
    increase_open_bids_and_asks(&mut position, params.direction, base_asset_amount)?;
    Ok(
        OrderDraft {
            order_index,
            position_index,
            position,
            user_base_asset_amount: held.base_asset_amount,
            base_asset_amount,
            worst_case_before,
        },
    )
}

/// Finds the trader's position in a market, or the slot for a fresh one.
pub fn resolve_position(positions: &[MarketPosition; 5], market_index: u64) -> (r: Result<
    (usize, MarketPosition),
    ErrorCode,
>)
    ensures
        match resolved_position(positions@, market_index) {
            Ok((p, position)) => r == Ok::<(usize, MarketPosition), ErrorCode>(
                (p as usize, position),
            ) && 0 <= p < 5,
            Err(e) => r == Err::<(usize, MarketPosition), ErrorCode>(e),
        },
{
    match get_position_index(positions, market_index) {
        Ok(p) => {
            proof {
                lemma_first_match(positions@, held_for(market_index));
            }
            Ok((p, positions[p]))
        },
        Err(_) => {
            let mut scratch = *positions;
            let p = add_new_position(&mut scratch, market_index)?;
            proof {
                lemma_first_match(positions@, available());
            }
            Ok((p, scratch[p]))
        },
    }
}

/// The order that a placement writes.
pub open spec fn new_order(
    params: OrderParams,
    now: i64,
    order_id: u64,
    user_base_asset_amount: i128,
    base_asset_amount: u128,
    discount_tier: OrderDiscountTier,
    referrer: Option<Pubkey>,
    auction: Option<AuctionPrices>,
) -> Order {
    Order {
        status: OrderStatus::Open,
        order_type: params.order_type,
        ts: now,
        order_id,
        user_order_id: params.user_order_id,
        market_index: params.market_index,
        price: params.price,
        user_base_asset_amount,
        base_asset_amount,
        quote_asset_amount: params.quote_asset_amount,
        base_asset_amount_filled: 0,
        quote_asset_amount_filled: 0,
        fee: 0,
        direction: params.direction,
        reduce_only: params.reduce_only,
        post_only: params.post_only,
        immediate_or_cancel: params.immediate_or_cancel,
        discount_tier,
        trigger_price: params.trigger_price,
        trigger_condition: params.trigger_condition,
        referrer: match referrer {
            Some(key) => key,
            None => null_pubkey(),
        },
        oracle_price_offset: params.oracle_price_offset,
        auction_start_price: if params.has_auction() && auction is Some {
            auction->Some_0.start_price
        } else {
            0
        },
        auction_end_price: if params.has_auction() && auction is Some {
            auction->Some_0.end_price
        } else {
            0
        },
    }
}

/// What placing an order comes to.
///
/// After the draft: an order that names a base size and is not post-only
/// needs its auction prices; every other order has both at zero. The order
/// takes the account's next order id, and the account's counter moves on
/// (`MathError` where it cannot). The oracle price is resolved for the
/// order. The order needs validation, and a validation that fails decides
/// the error. With the order in its slot, the worst-case exposure of the
/// position is taken again, and the margin check is needed: an order that
/// raised the magnitude of the worst-case exposure while the trader does
/// not meet the initial margin requirement is refused
/// (`InsufficientCollateral`). Then the order is placed.
///
/// The account that comes back is the account as it is to stand: changed
/// only together with `Placed`.
pub open spec fn placement(
    user: User,
    user_key: Pubkey,
    market: Market,
    params: OrderParams,
    now: i64,
    discount_tier: OrderDiscountTier,
    referrer: Option<Pubkey>,
    oracle: Option<OracleReading>,
    answers: PlacementAnswers,
) -> Result<(User, Placement), ErrorCode> {
    match order_draft(user, market, params) {
        Err(e) => Err(e),
        Ok(draft) => if params.has_auction() && answers.auction is None {
            Ok(
                (
                    user,
                    Placement::NeedsAuctionPrices {
                        direction: params.direction,
                        base_asset_amount: draft.base_asset_amount,
                    },
                ),
            )
        } else if user.next_order_id == u64::MAX {
            Err(ErrorCode::MathError)
        } else {
            let order = new_order(
                params,
                now,
                user.next_order_id,
                draft.user_base_asset_amount,
                draft.base_asset_amount,
                discount_tier,
                referrer,
                answers.auction,
            );
            let after = user.with_order_placed(
                draft.order_index as int,
                order,
                draft.position_index as int,
                draft.position,
            );
            match valid_oracle_price(oracle, order) {
                Err(e) => Err(e),
                Ok(valid_oracle_price) => match answers.validation {
                    None => Ok((user, Placement::NeedsValidation { order, valid_oracle_price })),
                    Some(Err(e)) => Err(e),
                    Some(Ok(_)) => match draft.position.worst_case() {
                        Err(e) => Err(e),
                        Ok(worst_case_after) => match answers.meets_initial_margin_requirement {
                            None => Ok((user, Placement::NeedsMarginCheck { user: after })),
                            Some(meets) => if !meets && magnitude(worst_case_after as int)
                                > magnitude(draft.worst_case_before as int) {
                                Err(ErrorCode::InsufficientCollateral)
                            } else {
                                Ok(
                                    (
                                        after,
                                        Placement::Placed(
                                            OrderRecord::unfilled(
                                                now,
                                                order,
                                                user_key,
                                                user.authority,
                                                OrderAction::Place,
                                            ),
                                        ),
                                    ),
                                )
                            },
                        },
                    },
                },
            }
        },
    }
}

/// Places an order for a trader whose funding is settled.
///
/// The call is made again with each answer it asks for until it returns
/// `Placed` or an error. The account changes only together with `Placed`:
/// an order that is refused, for want of collateral or for any other
/// reason, leaves every order slot and every position as it was.
///
/// A placed order is open, has nothing filled, sits in the first slot that
/// was empty, and carries the id that was the account's next, which has
/// moved on by one. No other order slot is touched.
pub fn place_order(
    user: &mut User,
    user_key: &Pubkey,
    market: &Market,
    params: &OrderParams,
    now: i64,
    discount_tier: OrderDiscountTier,
    referrer: Option<Pubkey>,
    oracle: Option<OracleReading>,
    answers: &PlacementAnswers,
) -> (r: Result<Placement, ErrorCode>)
    ensures
        match placement(
            *old(user),
            *user_key,
            *market,
            *params,
            now,
            discount_tier,
            referrer,
            oracle,
            *answers,
        ) {
            Ok((after, step)) => r == Ok::<Placement, ErrorCode>(step) && *final(user) == after,
            Err(e) => r == Err::<Placement, ErrorCode>(e) && *final(user) == *old(user),
        },
        !(r matches Ok(Placement::Placed(_))) ==> *final(user) == *old(user),
        old(user).wf() ==> final(user).wf(),
        r matches Ok(Placement::Placed(record)) ==> {
            &&& record.order.status == OrderStatus::Open
            &&& record.order.base_asset_amount_filled == 0
            &&& record.order.quote_asset_amount_filled == 0
            &&& record.order.order_id == old(user).next_order_id
            &&& final(user).next_order_id == old(user).next_order_id + 1
            &&& old(user).free_order_index() matches Some(i) && final(user).orders[i]
                == record.order && forall|j: int|
                0 <= j < 32 && j != i ==> (#[trigger] final(user).orders[j]) == old(user).orders[j]
        },
{
    proof {
        if placement(
            *user,
            *user_key,
            *market,
            *params,
            now,
            discount_tier,
            referrer,
            oracle,
            *answers,
        ) matches Ok((_, step)) && step is Placed {
            lemma_placed_order_takes_the_first_empty_slot(
                *user,
                *user_key,
                *market,
                *params,
                now,
                discount_tier,
                referrer,
                oracle,
                *answers,
            );
        }
        if user.wf() {
            lemma_placement_keeps_wf(
                *user,
                *user_key,
                *market,
                *params,
                now,
                discount_tier,
                referrer,
                oracle,
                *answers,
            );
        }
    }
    let draft = draft_order(user, market, params)?;
    let order_index = draft.order_index;
    let position_index = draft.position_index;
    let position = draft.position;
    let base_asset_amount = draft.base_asset_amount;
    let user_base_asset_amount = draft.user_base_asset_amount;
    let worst_case_before = draft.worst_case_before;

    let (auction_start_price, auction_end_price) = if params.has_auction() {
        match answers.auction {
            Some(prices) => (prices.start_price, prices.end_price),
            None => {
                return Ok(
                    Placement::NeedsAuctionPrices { direction: params.direction, base_asset_amount },
                );
            },
        }
    } else {
        (0u128, 0u128)
    };
    let order_id = user.next_order_id;
    let next_order_id = match order_id.checked_add(1) {
        Some(next) => next,
        None => { return Err(ErrorCode::MathError); },
    };
    let order = Order {
        status: OrderStatus::Open,
        order_type: params.order_type,
        ts: now,
        order_id,
        user_order_id: params.user_order_id,
        market_index: params.market_index,
        price: params.price,
        user_base_asset_amount,
        base_asset_amount,
        quote_asset_amount: params.quote_asset_amount,
        base_asset_amount_filled: 0,
        quote_asset_amount_filled: 0,
        fee: 0,
        direction: params.direction,
        reduce_only: params.reduce_only,
        post_only: params.post_only,
        immediate_or_cancel: params.immediate_or_cancel,
        discount_tier,
        trigger_price: params.trigger_price,
        trigger_condition: params.trigger_condition,
        referrer: match referrer {
            Some(key) => key,
            None => default_pubkey(),
        },
        oracle_price_offset: params.oracle_price_offset,
        auction_start_price,
        auction_end_price,
    };
    let valid_oracle_price = get_valid_oracle_price(oracle, &order)?;
    match answers.validation {
        None => { return Ok(Placement::NeedsValidation { order, valid_oracle_price }); },
        Some(Err(e)) => { return Err(e); },
        Some(Ok(_)) => {},
    }
    let mut after = *user;
    after.next_order_id = next_order_id;
    after.positions[position_index] = position;
    after.orders[order_index] = order;
    let worst_case_after = position.worst_case_base_asset_amount()?;
    let risk_increasing = unsigned_abs(worst_case_after) > unsigned_abs(worst_case_before);
    let meets_initial_margin_requirement = match answers.meets_initial_margin_requirement {
        None => { return Ok(Placement::NeedsMarginCheck { user: after }); },
        Some(meets) => meets,
    };
    if !meets_initial_margin_requirement && risk_increasing {
        return Err(ErrorCode::InsufficientCollateral);
    }
    let record = OrderRecord::new_unfilled(
        now,
        order,
        *user_key,
        user.authority,
        OrderAction::Place,
    );
    *user = after;
    Ok(Placement::Placed(record))
}

/// What a draft says of the account it was made for.
pub proof fn lemma_order_draft(user: User, market: Market, params: OrderParams)
    requires
        order_draft(user, market, params) is Ok,
    ensures
        ({
            let draft = order_draft(user, market, params)->Ok_0;
            let i = draft.order_index as int;
            let p = draft.position_index as int;
            let m = params.market_index;
            &&& 0 <= i < 32
            &&& user.free_order_index() == Some(i)
            &&& user.orders[i].status == OrderStatus::Init
            &&& 0 <= p < 5
            &&& draft.position.market_index == m
            &&& draft.position.open_orders >= 1
            &&& draft.base_asset_amount <= i128::MAX
            &&& draft.position.open_bids == user.positions[p].open_bids + if params.direction
                == PositionDirection::Long {
                draft.base_asset_amount as int
            } else {
                0
            }
            &&& draft.position.open_asks == user.positions[p].open_asks - if params.direction
                == PositionDirection::Short {
                draft.base_asset_amount as int
            } else {
                0
            }
            &&& params.user_order_id > 0 ==> forall|k: int|
                0 <= k < 32 ==> (#[trigger] user.orders[k]).user_order_id != params.user_order_id
            &&& {
                ||| {
                    &&& user.positions[p].spec_is_for(m)
                    &&& draft.position.open_orders == user.positions[p].open_orders + 1
                }
                ||| {
                    &&& user.positions[p].spec_is_available()
                    &&& draft.position.open_orders == 1
                    &&& forall|q: int| 0 <= q < 5 ==> !(#[trigger] user.positions[q]).spec_is_for(m)
                }
            }
        }),
{
    let m = params.market_index;
    lemma_first_match(user.orders@, vacant());
    lemma_first_match(user.orders@, with_user_order_id(params.user_order_id));
    lemma_first_match(user.positions@, held_for(m));
    lemma_first_match(user.positions@, available());
    if params.user_order_id > 0 {
        assert forall|k: int| 0 <= k < 32 implies (#[trigger] user.orders[k]).user_order_id
            != params.user_order_id by {
            assert(!with_user_order_id(params.user_order_id)(user.orders@[k]));
        }
    }
    if position_index(user.positions@, m) is None {
        assert forall|q: int| 0 <= q < 5 implies !(#[trigger] user.positions[q]).spec_is_for(m) by {
            assert(!held_for(m)(user.positions@[q]));
        }
    }
}

/// An account that takes a drafted order stays one the engine could have
/// produced.
pub proof fn lemma_placed_order_keeps_wf(
    user: User,
    market: Market,
    params: OrderParams,
    order: Order,
)
    requires
        user.wf(),
        order_draft(user, market, params) is Ok,
        user.next_order_id < u64::MAX,
        order.status == OrderStatus::Open,
        order.market_index == params.market_index,
        order.user_order_id == params.user_order_id,
        order.order_id == user.next_order_id,
        order.direction == params.direction,
        order.base_asset_amount == order_draft(user, market, params)->Ok_0.base_asset_amount,
        order.base_asset_amount_filled == 0,
    ensures
        ({
            let draft = order_draft(user, market, params)->Ok_0;
            user.with_order_placed(
                draft.order_index as int,
                order,
                draft.position_index as int,
                draft.position,
            ).wf()
        }),
{
    let draft = order_draft(user, market, params)->Ok_0;
    let i = draft.order_index as int;
    let p = draft.position_index as int;
    let m = params.market_index;
    let after = user.with_order_placed(i, order, p, draft.position);
    lemma_order_draft(user, market, params);
    assert(after.orders@ == user.orders@.update(i, order));
    assert(after.positions@ == user.positions@.update(p, draft.position));
    assert(after.positions[p].spec_is_for(m));
    assert(user.orders[i] == Order::empty());

    // Every position in use before is still in use, in the same market.
    assert forall|q: int| 0 <= q < 5 && !(#[trigger] user.positions[q]).spec_is_available() implies {
        &&& !after.positions[q].spec_is_available()
        &&& after.positions[q].market_index == user.positions[q].market_index
    } by {}
    // A position in use afterwards, other than the order's, was in use before
    // and is in another market.
    assert forall|q: int|
        0 <= q < 5 && q != p && !(#[trigger] after.positions[q]).spec_is_available() implies {
        &&& after.positions[q] == user.positions[q]
        &&& user.positions[q].market_index != m
    } by {
        if user.positions[q].market_index == m {
            assert(user.positions[q].spec_is_for(m));
            if user.positions[p].spec_is_for(m) {
                assert(!user.positions[p].spec_is_available());
                if p < q {
                    assert(user.positions[p].market_index != user.positions[q].market_index);
                } else {
                    assert(user.positions[q].market_index != user.positions[p].market_index);
                }
            }
        }
    }

    assert forall|k: int|
        0 <= k < 32 && (#[trigger] after.orders[k]).status == OrderStatus::Open implies {
        &&& after.orders[k].base_asset_amount_filled <= after.orders[k].base_asset_amount
        &&& after.orders[k].order_id < after.next_order_id
        &&& position_index(after.positions@, after.orders[k].market_index) is Some
    } by {
        let mk = after.orders[k].market_index;
        lemma_first_match(after.positions@, held_for(mk));
        if k == i {
            assert(held_for(mk)(after.positions@[p]));
        } else {
            assert(after.orders[k] == user.orders[k]);
            lemma_first_match(user.positions@, held_for(mk));
            let q = position_index(user.positions@, mk)->Some_0;
            assert(user.positions[q].spec_is_for(mk));
            assert(held_for(mk)(after.positions@[q]));
        }
    }

    assert forall|k: int, l: int|
        0 <= k < l < 32 && (#[trigger] after.orders[k]).status == OrderStatus::Open && (
        #[trigger] after.orders[l]).status == OrderStatus::Open implies {
        &&& after.orders[k].order_id != after.orders[l].order_id
        &&& after.orders[k].user_order_id != 0 ==> after.orders[k].user_order_id
            != after.orders[l].user_order_id
    } by {
        if k != i {
            assert(after.orders[k] == user.orders[k]);
        }
        if l != i {
            assert(after.orders[l] == user.orders[l]);
        }
    }

    assert forall|a: int, b: int|
        0 <= a < b < 5 && !(#[trigger] after.positions[a]).spec_is_available() && !(
        #[trigger] after.positions[b]).spec_is_available() implies after.positions[a].market_index
        != after.positions[b].market_index by {
        if a != p && b != p {
            assert(after.positions[a] == user.positions[a]);
            assert(after.positions[b] == user.positions[b]);
        }
    }

    assert forall|q: int|
        0 <= q < 5 && !(#[trigger] after.positions[q]).spec_is_available() implies {
        &&& after.positions[q].open_orders == open_orders_in(
            after.orders@,
            after.positions[q].market_index,
        )
        &&& covers_resting_orders(after.orders@, after.positions[q])
    } by {
        let mq = after.positions[q].market_index;
        lemma_open_orders_in_update(user.orders@, i, order, mq);
        lemma_unfilled_in_update(user.orders@, i, order, mq, PositionDirection::Long);
        lemma_unfilled_in_update(user.orders@, i, order, mq, PositionDirection::Short);
        if q == p {
            if user.positions[p].spec_is_for(m) {
                assert(!user.positions[p].spec_is_available());
                assert(covers_resting_orders(user.orders@, user.positions[p]));
            } else {
                lemma_first_match(user.positions@, held_for(m));
                assert(position_index(user.positions@, m) is None) by {
                    if position_index(user.positions@, m) is Some {
                        let h = position_index(user.positions@, m)->Some_0;
                        assert(user.positions[h].spec_is_for(m));
                    }
                }
                crate::user::lemma_no_position_no_open_orders(user, m);
                assert forall|k: int| 0 <= k < 32 implies !open_in(
                    #[trigger] user.orders@[k],
                    m,
                ) by {
                    if open_in(user.orders@[k], m) {
                        assert(user.orders[k].status == OrderStatus::Open);
                        lemma_first_match(user.positions@, held_for(m));
                        let q2 = position_index(user.positions@, m)->Some_0;
                        assert(user.positions[q2].spec_is_for(m));
                    }
                }
                lemma_open_orders_in_zero(user.orders@, m);
            }
        } else {
            assert(after.positions[q] == user.positions[q]);
            assert(covers_resting_orders(user.orders@, user.positions[q]));
        }
    }
}

/// Placing an order keeps an account one the engine could have produced.
pub proof fn lemma_placement_keeps_wf(
    user: User,
    user_key: Pubkey,
    market: Market,
    params: OrderParams,
    now: i64,
    discount_tier: OrderDiscountTier,
    referrer: Option<Pubkey>,
    oracle: Option<OracleReading>,
    answers: PlacementAnswers,
)
    requires
        user.wf(),
    ensures
        placement(
            user,
            user_key,
            market,
            params,
            now,
            discount_tier,
            referrer,
            oracle,
            answers,
        ) matches Ok((after, _)) ==> after.wf(),
{
    let outcome = placement(
        user,
        user_key,
        market,
        params,
        now,
        discount_tier,
        referrer,
        oracle,
        answers,
    );
    if outcome matches Ok((after, Placement::Placed(_))) {
        let draft = order_draft(user, market, params)->Ok_0;
        let order = new_order(
            params,
            now,
            user.next_order_id,
            draft.user_base_asset_amount,
            draft.base_asset_amount,
            discount_tier,
            referrer,
            answers.auction,
        );
        lemma_placed_order_keeps_wf(user, market, params, order);
    }
}

/// While an order in the account carries an id of the trader's choosing,
/// an order placed under the same id is refused, provided the account has
/// room for an order at all: a full account refuses it for that reason
/// first.
pub proof fn lemma_user_order_id_in_use_is_refused(
    user: User,
    user_key: Pubkey,
    market: Market,
    params: OrderParams,
    now: i64,
    discount_tier: OrderDiscountTier,
    referrer: Option<Pubkey>,
    oracle: Option<OracleReading>,
    answers: PlacementAnswers,
    k: int,
)
    requires
        0 <= k < 32,
        user.orders[k].status == OrderStatus::Open,
        user.orders[k].user_order_id == params.user_order_id,
        params.user_order_id > 0,
        user.free_order_index() is Some,
    ensures
        placement(user, user_key, market, params, now, discount_tier, referrer, oracle, answers)
            == Err::<(User, Placement), ErrorCode>(ErrorCode::UserOrderIdAlreadyInUse),
{
    lemma_first_match(user.orders@, with_user_order_id(params.user_order_id));
    assert(with_user_order_id(params.user_order_id)(user.orders@[k]));
}

/// Of two orders placed one after the other under the same id of the
/// trader's choosing, the second is refused, provided the account still has
/// room for an order after the first.
pub proof fn lemma_second_order_under_same_id_is_refused(
    user: User,
    user_key: Pubkey,
    market: Market,
    first: OrderParams,
    now: i64,
    discount_tier: OrderDiscountTier,
    referrer: Option<Pubkey>,
    oracle: Option<OracleReading>,
    answers: PlacementAnswers,
    second_market: Market,
    second: OrderParams,
    second_now: i64,
    second_discount_tier: OrderDiscountTier,
    second_referrer: Option<Pubkey>,
    second_oracle: Option<OracleReading>,
    second_answers: PlacementAnswers,
)
    requires
        first.user_order_id > 0,
        second.user_order_id == first.user_order_id,
        placement(user, user_key, market, first, now, discount_tier, referrer, oracle, answers)
            matches Ok((after, Placement::Placed(_))) && after.free_order_index() is Some,
    ensures
        placement(user, user_key, market, first, now, discount_tier, referrer, oracle, answers)
            matches Ok((after, _)) && placement(
            after,
            user_key,
            second_market,
            second,
            second_now,
            second_discount_tier,
            second_referrer,
            second_oracle,
            second_answers,
        ) == Err::<(User, Placement), ErrorCode>(ErrorCode::UserOrderIdAlreadyInUse),
{
    let after = placement(
        user,
        user_key,
        market,
        first,
        now,
        discount_tier,
        referrer,
        oracle,
        answers,
    )->Ok_0.0;
    lemma_order_draft(user, market, first);
    let draft = order_draft(user, market, first)->Ok_0;
    let i = draft.order_index as int;
    assert(after.orders@[i].user_order_id == first.user_order_id);
    lemma_user_order_id_in_use_is_refused(
        after,
        user_key,
        second_market,
        second,
        second_now,
        second_discount_tier,
        second_referrer,
        second_oracle,
        second_answers,
        i,
    );
}

/// When a placement that has been given its answers goes through.
///
/// The draft has to succeed; an order with an auction has to have been
/// given its prices; the account must not have run out of order ids; an
/// order priced relative to the oracle needs a valid reading; validation
/// has to have passed; the worst-case exposure with the order in place has
/// to fit; and the trader either meets the initial margin requirement or
/// the order does not raise the magnitude of the worst-case exposure.
pub open spec fn placement_is_owed(
    user: User,
    market: Market,
    params: OrderParams,
    oracle: Option<OracleReading>,
    answers: PlacementAnswers,
) -> bool {
    &&& order_draft(user, market, params) matches Ok(draft)
    &&& params.has_auction() ==> answers.auction is Some
    &&& user.next_order_id < u64::MAX
    &&& params.oracle_price_offset != 0 ==> oracle is Some && oracle->Some_0.is_valid
    &&& answers.validation == Some(Ok::<(), ErrorCode>(()))
    &&& draft.position.worst_case() matches Ok(worst_case_after)
    &&& answers.meets_initial_margin_requirement matches Some(meets)
    &&& meets || magnitude(worst_case_after as int) <= magnitude(draft.worst_case_before as int)
}

/// An order is placed exactly when `placement_is_owed` says so, and then
/// the account is the account with the drafted order in its slot, the
/// order's position in its slot and the next order id moved on, and the
/// record is the record of that order.
pub proof fn lemma_placement_is_owed(
    user: User,
    user_key: Pubkey,
    market: Market,
    params: OrderParams,
    now: i64,
    discount_tier: OrderDiscountTier,
    referrer: Option<Pubkey>,
    oracle: Option<OracleReading>,
    answers: PlacementAnswers,
)
    ensures
        placement_is_owed(user, market, params, oracle, answers) <==> (placement(
            user,
            user_key,
            market,
            params,
            now,
            discount_tier,
            referrer,
            oracle,
            answers,
        ) matches Ok((_, step)) && step is Placed),
        placement_is_owed(user, market, params, oracle, answers) ==> ({
            let draft = order_draft(user, market, params)->Ok_0;
            let order = new_order(
                params,
                now,
                user.next_order_id,
                draft.user_base_asset_amount,
                draft.base_asset_amount,
                discount_tier,
                referrer,
                answers.auction,
            );
            placement(
                user,
                user_key,
                market,
                params,
                now,
                discount_tier,
                referrer,
                oracle,
                answers,
            ) == Ok::<(User, Placement), ErrorCode>(
                (
                    user.with_order_placed(
                        draft.order_index as int,
                        order,
                        draft.position_index as int,
                        draft.position,
                    ),
                    Placement::Placed(
                        OrderRecord::unfilled(
                            now,
                            order,
                            user_key,
                            user.authority,
                            OrderAction::Place,
                        ),
                    ),
                ),
            )
        }),
{
    let outcome = placement(
        user,
        user_key,
        market,
        params,
        now,
        discount_tier,
        referrer,
        oracle,
        answers,
    );
    if order_draft(user, market, params) is Ok {
        let draft = order_draft(user, market, params)->Ok_0;
        let order = new_order(
            params,
            now,
            user.next_order_id,
            draft.user_base_asset_amount,
            draft.base_asset_amount,
            discount_tier,
            referrer,
            answers.auction,
        );
        assert(order.oracle_price_offset == params.oracle_price_offset);
        if answers.validation is Some && answers.validation->Some_0 is Ok {
            let unit = answers.validation->Some_0->Ok_0;
            assert(unit == ());
            assert(answers.validation == Some(Ok::<(), ErrorCode>(())));
        }
        if placement_is_owed(user, market, params, oracle, answers) {
            assert(valid_oracle_price(oracle, order) is Ok);
            assert(outcome matches Ok((_, step)) && step is Placed);
        }
        if outcome matches Ok((_, step)) && step is Placed {
            assert(placement_is_owed(user, market, params, oracle, answers));
        }
    }
}

/// A placed order sits in the first slot that was empty, and is open; no
/// other order slot is touched, and no position but the one of the order's
/// market.
pub proof fn lemma_placed_order_takes_the_first_empty_slot(
    user: User,
    user_key: Pubkey,
    market: Market,
    params: OrderParams,
    now: i64,
    discount_tier: OrderDiscountTier,
    referrer: Option<Pubkey>,
    oracle: Option<OracleReading>,
    answers: PlacementAnswers,
)
    requires
        placement(user, user_key, market, params, now, discount_tier, referrer, oracle, answers)
            matches Ok((_, step)) && step is Placed,
    ensures
        ({
            let placed = placement(
                user,
                user_key,
                market,
                params,
                now,
                discount_tier,
                referrer,
                oracle,
                answers,
            )->Ok_0;
            let after = placed.0;
            let record = placed.1->Placed_0;
            let i = user.free_order_index()->Some_0;
            let p = order_draft(user, market, params)->Ok_0.position_index as int;
            &&& is_first_match(user.orders@, vacant(), i)
            &&& user.orders[i].status == OrderStatus::Init
            &&& after.orders[i] == record.order
            &&& after.orders[i].status == OrderStatus::Open
            &&& after.orders[i].market_index == params.market_index
            &&& forall|j: int| 0 <= j < 32 && j != i ==> (#[trigger] after.orders[j]) == user.orders[j]
            &&& 0 <= p < 5
            &&& after.positions[p].market_index == params.market_index
            &&& forall|q: int|
                0 <= q < 5 && q != p ==> (#[trigger] after.positions[q]) == user.positions[q]
        }),
{
    lemma_order_draft(user, market, params);
    lemma_first_match(user.orders@, vacant());
    let draft = order_draft(user, market, params)->Ok_0;
    let after = placement(
        user,
        user_key,
        market,
        params,
        now,
        discount_tier,
        referrer,
        oracle,
        answers,
    )->Ok_0.0;
    assert(after.orders@ == user.orders@.update(draft.order_index as int, after.orders[draft.order_index as int]));
    assert(after.positions@ == user.positions@.update(draft.position_index as int, draft.position));
}

/// An order of a whole number of steps is placed at the size it asks for.
///
/// Where a placement is owed to an order that is not reduce-only and asks
/// for a whole number of steps of its market, the order is placed at that
/// size, at the price and in the direction it asks for, open and with
/// nothing filled. The position of its market, the one the trader had or a
/// fresh one, counts one order more and carries the order's size as more
/// open interest on the order's side; nothing else of it has changed.
pub proof fn lemma_order_of_whole_steps_is_placed_in_full(
    user: User,
    user_key: Pubkey,
    market: Market,
    params: OrderParams,
    now: i64,
    discount_tier: OrderDiscountTier,
    referrer: Option<Pubkey>,
    oracle: Option<OracleReading>,
    answers: PlacementAnswers,
    steps: nat,
)
    requires
        placement_is_owed(user, market, params, oracle, answers),
        !params.reduce_only,
        params.base_asset_amount == steps * market.amm.base_asset_amount_step_size,
    ensures
        ({
            let placed = placement(
                user,
                user_key,
                market,
                params,
                now,
                discount_tier,
                referrer,
                oracle,
                answers,
            )->Ok_0;
            let after = placed.0;
            let order = placed.1->Placed_0.order;
            let i = user.free_order_index()->Some_0;
            let resolved = resolved_position(user.positions@, params.market_index)->Ok_0;
            let p = resolved.0;
            let size = params.base_asset_amount;
            &&& placed.1 is Placed
            &&& after.orders[i] == order
            &&& order.status == OrderStatus::Open
            &&& order.order_type == params.order_type
            &&& order.direction == params.direction
            &&& order.price == params.price
            &&& order.base_asset_amount == size
            &&& order.base_asset_amount_filled == 0
            &&& order.quote_asset_amount_filled == 0
            &&& 0 <= p < 5
            &&& after.positions[p] == match params.direction {
                PositionDirection::Long => MarketPosition {
                    open_orders: (resolved.1.open_orders + 1) as u128,
                    open_bids: (resolved.1.open_bids + size) as i128,
                    ..resolved.1
                },
                PositionDirection::Short => MarketPosition {
                    open_orders: (resolved.1.open_orders + 1) as u128,
                    open_asks: (resolved.1.open_asks - size) as i128,
                    ..resolved.1
                },
            }
        }),
{
    let step_size = market.amm.base_asset_amount_step_size;
    assert(standardized(params.base_asset_amount, step_size) == params.base_asset_amount) by {
        vstd::arithmetic::div_mod::lemma_mod_multiples_basic(steps as int, step_size as int);
    }
    lemma_placement_is_owed(
        user,
        user_key,
        market,
        params,
        now,
        discount_tier,
        referrer,
        oracle,
        answers,
    );
    lemma_placed_order_takes_the_first_empty_slot(
        user,
        user_key,
        market,
        params,
        now,
        discount_tier,
        referrer,
        oracle,
        answers,
    );
    let draft = order_draft(user, market, params)->Ok_0;
    let after = placement(
        user,
        user_key,
        market,
        params,
        now,
        discount_tier,
        referrer,
        oracle,
        answers,
    )->Ok_0.0;
    assert(after.positions@[draft.position_index as int] == draft.position);
}

/// The first order on an account that holds nothing.
///
/// Where the account has no order and no position, an order that is not
/// reduce-only and asks for a whole number of steps of its market is placed
/// in the first slot at the size and price it asks for, open and with
/// nothing filled, provided that it has been given its answers and that the
/// size fits a signed amount. The first position slot then holds the
/// market's position: it counts one order and carries the order's size as
/// open interest on the order's side, and nothing else.
pub proof fn lemma_first_order_of_whole_steps(
    user: User,
    user_key: Pubkey,
    market: Market,
    params: OrderParams,
    now: i64,
    discount_tier: OrderDiscountTier,
    referrer: Option<Pubkey>,
    oracle: Option<OracleReading>,
    answers: PlacementAnswers,
    steps: nat,
)
    requires
        forall|k: int| 0 <= k < 32 ==> (#[trigger] user.orders[k]) == Order::empty(),
        forall|q: int| 0 <= q < 5 ==> (#[trigger] user.positions[q]) == MarketPosition::empty(),
        user.next_order_id < u64::MAX,
        market.market_index == params.market_index,
        market.amm.base_asset_amount_step_size > 0,
        params.base_asset_amount == steps * market.amm.base_asset_amount_step_size,
        params.base_asset_amount <= i128::MAX,
        !params.reduce_only,
        params.has_auction() ==> answers.auction is Some,
        params.oracle_price_offset != 0 ==> oracle is Some && oracle->Some_0.is_valid,
        answers.validation == Some(Ok::<(), ErrorCode>(())),
        answers.meets_initial_margin_requirement == Some(true),
    ensures
        placement_is_owed(user, market, params, oracle, answers),
        ({
            let placed = placement(
                user,
                user_key,
                market,
                params,
                now,
                discount_tier,
                referrer,
                oracle,
                answers,
            )->Ok_0;
            let after = placed.0;
            let order = after.orders[0];
            &&& placed.1 is Placed
            &&& placed.1->Placed_0.order == order
            &&& order.status == OrderStatus::Open
            &&& order.order_type == params.order_type
            &&& order.direction == params.direction
            &&& order.price == params.price
            &&& order.base_asset_amount == params.base_asset_amount
            &&& order.base_asset_amount_filled == 0
            &&& order.quote_asset_amount_filled == 0
            &&& order.order_id == user.next_order_id
            &&& forall|j: int| 1 <= j < 32 ==> (#[trigger] after.orders[j]) == Order::empty()
            &&& after.positions[0] == match params.direction {
                PositionDirection::Long => MarketPosition {
                    open_orders: 1,
                    open_bids: params.base_asset_amount as i128,
                    ..MarketPosition::fresh(params.market_index)
                },
                PositionDirection::Short => MarketPosition {
                    open_orders: 1,
                    open_asks: (-params.base_asset_amount) as i128,
                    ..MarketPosition::fresh(params.market_index)
                },
            }
            &&& forall|q: int| 1 <= q < 5 ==> (#[trigger] after.positions[q]) == MarketPosition::empty()
        }),
{
    let step_size = market.amm.base_asset_amount_step_size;
    assert(standardized(params.base_asset_amount, step_size) == params.base_asset_amount) by {
        vstd::arithmetic::div_mod::lemma_mod_multiples_basic(steps as int, step_size as int);
    }
    assert(is_first_match(user.orders@, vacant(), 0)) by {
        assert(vacant()(user.orders@[0]));
    }
    lemma_first_match_is(user.orders@, vacant(), 0);
    assert(user.order_index_by_user_order_id(params.user_order_id) is None
        || params.user_order_id == 0) by {
        if params.user_order_id != 0 {
            assert forall|k: int| 0 <= k < 32 implies !with_user_order_id(params.user_order_id)(
                #[trigger] user.orders@[k],
            ) by {
                assert(user.orders[k] == Order::empty());
            }
            lemma_first_match_none(user.orders@, with_user_order_id(params.user_order_id));
        }
    }
    assert(position_index(user.positions@, params.market_index) is None) by {
        assert forall|q: int| 0 <= q < 5 implies !held_for(params.market_index)(
            #[trigger] user.positions@[q],
        ) by {
            assert(user.positions[q] == MarketPosition::empty());
        }
        lemma_first_match_none(user.positions@, held_for(params.market_index));
    }
    assert(is_first_match(user.positions@, available(), 0)) by {
        assert(user.positions[0] == MarketPosition::empty());
        assert(available()(user.positions@[0]));
    }
    lemma_first_match_is(user.positions@, available(), 0);
    lemma_placement_is_owed(
        user,
        user_key,
        market,
        params,
        now,
        discount_tier,
        referrer,
        oracle,
        answers,
    );
    lemma_placed_order_takes_the_first_empty_slot(
        user,
        user_key,
        market,
        params,
        now,
        discount_tier,
        referrer,
        oracle,
        answers,
    );
}

} // verus!
