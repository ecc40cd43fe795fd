//! A trader's positions: net size, resting exposure and unsettled profit
//! and loss per market, in a fixed number of slots.

use crate::error::ErrorCode;
use crate::math::{cast_to_i128, magnitude, unsigned_abs};
use crate::order::PositionDirection;
use crate::scan::{
    first_match, is_first_match, lemma_first_match, lemma_first_match_is, lemma_first_match_none,
    no_match,
};
use vstd::prelude::*;

verus! {

/// How many markets one trader can hold positions in.
pub const MAX_POSITIONS: usize = 5;

/// A trader's net exposure in one market.
///
/// `open_bids` is the size that resting long orders could still add to the
/// net size: placing a long order adds to it, filling or cancelling one takes
/// from it. `open_asks` is the size that resting short orders could still
/// take away, counted downward: placing a short order takes from it, filling
/// or cancelling one adds to it. In an account that the engine has worked
/// on, the bids of a position cover what its market's long orders have left
/// to fill and the asks what the short ones have, so that the bids are at
/// or above zero and the asks at or below: that is part of what
/// `User::wf` says, and every entry point keeps it.
#[derive(Clone, Copy, Debug, PartialEq, Eq)]
pub struct MarketPosition {
    pub market_index: u64,
    pub base_asset_amount: i128,
    pub open_orders: u128,
    pub open_bids: i128,
    pub open_asks: i128,
    pub unsettled_pnl: i128,
}

impl MarketPosition {
    /// The value of a position slot that is not in use.
    pub open spec fn empty() -> MarketPosition {
        MarketPosition {
            market_index: 0,
            base_asset_amount: 0,
            open_orders: 0,
            open_bids: 0,
            open_asks: 0,
            unsettled_pnl: 0,
        }
    }

    /// A position just opened in a market: nothing held, nothing resting.
    pub open spec fn fresh(market_index: u64) -> MarketPosition {
        MarketPosition { market_index, ..MarketPosition::empty() }
    }

    pub open spec fn spec_is_available(&self) -> bool {
        &&& self.base_asset_amount == 0
        &&& self.open_orders == 0
        &&& self.open_bids == 0
        &&& self.open_asks == 0
        &&& self.unsettled_pnl == 0
    }

    /// Whether the slot can be given to another market: it holds no size, no
    /// resting orders and no unsettled profit or loss.
    #[verifier::when_used_as_spec(spec_is_available)]
    pub fn is_available(&self) -> (r: bool)
        ensures
            r == self.spec_is_available(),
    {
        self.base_asset_amount == 0 && self.open_orders == 0 && self.open_bids == 0
            && self.open_asks == 0 && self.unsettled_pnl == 0
    }

    pub open spec fn spec_is_for(&self, market_index: u64) -> bool {
        self.market_index == market_index && !self.spec_is_available()
    }

    /// Whether the slot is in use for the given market.
    #[verifier::when_used_as_spec(spec_is_for)]
    pub fn is_for(&self, market_index: u64) -> (r: bool)
        ensures
            r == self.spec_is_for(market_index),
    {
        self.market_index == market_index && !self.is_available()
    }

    /// The net size the position would reach if every resting order on one
    /// side filled: of the two sides, the outcome of larger magnitude (the
    /// short side where they tie). `MathError` where a sum leaves `i128`.
    pub open spec fn worst_case(self) -> Result<i128, ErrorCode> {
        let all_bids_fill = self.base_asset_amount + self.open_bids;
        let all_asks_fill = self.base_asset_amount + self.open_asks;
        if all_bids_fill < i128::MIN || all_bids_fill > i128::MAX || all_asks_fill < i128::MIN
            || all_asks_fill > i128::MAX {
            Err(ErrorCode::MathError)
        } else if magnitude(all_bids_fill) > magnitude(all_asks_fill) {
            Ok(all_bids_fill as i128)
        } else {
            Ok(all_asks_fill as i128)
        }
    }

    /// The signed worst-case exposure of the position.
    pub fn worst_case_base_asset_amount(&self) -> (r: Result<i128, ErrorCode>)
        ensures
            r == self.worst_case(),
    {
        let all_bids_fill = match self.base_asset_amount.checked_add(self.open_bids) {
            Some(sum) => sum,
            None => { return Err(ErrorCode::MathError); },
        };
        let all_asks_fill = match self.base_asset_amount.checked_add(self.open_asks) {
            Some(sum) => sum,
            None => { return Err(ErrorCode::MathError); },
        };
        if unsigned_abs(all_bids_fill) > unsigned_abs(all_asks_fill) {
            Ok(all_bids_fill)
        } else {
            Ok(all_asks_fill)
        }
    }

    /// The position after resting exposure of `amount` was added on the side
    /// of `direction`: bids grow for a long order, asks grow downward for a
    /// short one.
    pub open spec fn with_more_open(self, direction: PositionDirection, amount: u128) -> Result<
        MarketPosition,
        ErrorCode,
    > {
        if amount > i128::MAX {
            Err(ErrorCode::CastingFailure)
        } else {
            match direction {
                PositionDirection::Long => if self.open_bids + amount > i128::MAX {
                    Err(ErrorCode::MathError)
                } else {
                    Ok(MarketPosition { open_bids: (self.open_bids + amount) as i128, ..self })
                },
                PositionDirection::Short => if self.open_asks - amount < i128::MIN {
                    Err(ErrorCode::MathError)
                } else {
                    Ok(MarketPosition { open_asks: (self.open_asks - amount) as i128, ..self })
                },
            }
        }
    }

    /// The position after resting exposure of `amount` was taken off the side
    /// of `direction`.
    pub open spec fn with_less_open(self, direction: PositionDirection, amount: u128) -> Result<
        MarketPosition,
        ErrorCode,
    > {
        if amount > i128::MAX {
            Err(ErrorCode::CastingFailure)
        } else {
            match direction {
                PositionDirection::Long => if self.open_bids - amount < i128::MIN {
                    Err(ErrorCode::MathError)
                } else {
                    Ok(MarketPosition { open_bids: (self.open_bids - amount) as i128, ..self })
                },
                PositionDirection::Short => if self.open_asks + amount > i128::MAX {
                    Err(ErrorCode::MathError)
                } else {
                    Ok(MarketPosition { open_asks: (self.open_asks + amount) as i128, ..self })
                },
            }
        }
    }

    /// The position after `pnl` was added to its unsettled profit and loss.
    pub open spec fn with_pnl(self, pnl: i128) -> Result<MarketPosition, ErrorCode> {
        let sum = self.unsettled_pnl + pnl;
        if sum < i128::MIN || sum > i128::MAX {
            Err(ErrorCode::MathError)
        } else {
            Ok(MarketPosition { unsettled_pnl: sum as i128, ..self })
        }
    }

    /// The position with one more open order counted.
    pub open spec fn with_order_opened(self) -> Result<MarketPosition, ErrorCode> {
        if self.open_orders + 1 > u128::MAX {
            Err(ErrorCode::MathError)
        } else {
            Ok(MarketPosition { open_orders: (self.open_orders + 1) as u128, ..self })
        }
    }

    /// The position with one open order less counted.
    pub open spec fn with_order_closed(self) -> Result<MarketPosition, ErrorCode> {
        if self.open_orders == 0 {
            Err(ErrorCode::MathError)
        } else {
            Ok(MarketPosition { open_orders: (self.open_orders - 1) as u128, ..self })
        }
    }
}

impl Default for MarketPosition {
    /// A position slot that is not in use.
    fn default() -> (position: MarketPosition)
        ensures
            position == MarketPosition::empty(),
    {
        MarketPosition {
            market_index: 0,
            base_asset_amount: 0,
            open_orders: 0,
            open_bids: 0,
            open_asks: 0,
            unsettled_pnl: 0,
        }
    }
}

/// The test a position slot passes when it is in use for `market_index`.
pub open spec fn held_for(market_index: u64) -> spec_fn(MarketPosition) -> bool {
    |position: MarketPosition| position.spec_is_for(market_index)
}

/// The test a position slot passes when it is free.
pub open spec fn available() -> spec_fn(MarketPosition) -> bool {
    |position: MarketPosition| position.spec_is_available()
}

/// The slot that holds the trader's position in a market: the first one in
/// use for it.
pub open spec fn position_index(positions: Seq<MarketPosition>, market_index: u64) -> Option<int> {
    first_match(positions, held_for(market_index))
}

/// The slot a new position goes to: the first free one.
pub open spec fn free_position_index(positions: Seq<MarketPosition>) -> Option<int> {
    first_match(positions, available())
}

/// Finds the trader's position in a market by linear scan.
pub fn get_position_index(positions: &[MarketPosition; 5], market_index: u64) -> (r: Result<
    usize,
    ErrorCode,
>)
    ensures
        match position_index(positions@, market_index) {
            Some(i) => r == Ok::<usize, ErrorCode>(i as usize),
            None => r == Err::<usize, ErrorCode>(ErrorCode::UserHasNoPositionInMarket),
        },
{
    let mut i: usize = 0;
    while i < 5
        invariant
            i <= 5,
            forall|j: int| 0 <= j < i ==> !held_for(market_index)(#[trigger] positions@[j]),
        decreases 5 - i,
    {
        if positions[i].is_for(market_index) {
            proof {
                assert(is_first_match(positions@, held_for(market_index), i as int));
                lemma_first_match_is(positions@, held_for(market_index), i as int);
            }
            return Ok(i);
        }
        i = i + 1;
    }
    proof {
        assert(no_match(positions@, held_for(market_index)));
        lemma_first_match_none(positions@, held_for(market_index));
    }
    Err(ErrorCode::UserHasNoPositionInMarket)
}

/// Opens a position for a market in the first free slot.
///
/// Fails with `MaxNumberOfPositions`, changing nothing, when no slot is free.
pub fn add_new_position(positions: &mut [MarketPosition; 5], market_index: u64) -> (r: Result<
    usize,
    ErrorCode,
>)
    ensures
        match free_position_index(old(positions)@) {
            Some(i) => {
                &&& r == Ok::<usize, ErrorCode>(i as usize)
                &&& final(positions)@ == old(positions)@.update(i, MarketPosition::fresh(market_index))
            },
            None => {
                &&& r == Err::<usize, ErrorCode>(ErrorCode::MaxNumberOfPositions)
                &&& *final(positions) == *old(positions)
            },
        },
{
    let mut i: usize = 0;
    while i < 5
        invariant
            i <= 5,
            *positions == *old(positions),
            forall|j: int| 0 <= j < i ==> !available()(#[trigger] positions@[j]),
        decreases 5 - i,
    {
        if positions[i].is_available() {
            proof {
                assert(is_first_match(positions@, available(), i as int));
                lemma_first_match_is(positions@, available(), i as int);
            }
            positions[i] = MarketPosition {
                market_index,
                base_asset_amount: 0,
                open_orders: 0,
                open_bids: 0,
                open_asks: 0,
                unsettled_pnl: 0,
            };
            return Ok(i);
        }
        i = i + 1;
    }
    proof {
        assert(no_match(positions@, available()));
        lemma_first_match_none(positions@, available());
    }
    Err(ErrorCode::MaxNumberOfPositions)
}

/// Adds the size of a new resting order to the position's open interest on
/// the order's side. On an error the position is unchanged.
pub fn increase_open_bids_and_asks(
    position: &mut MarketPosition,
    direction: PositionDirection,
    base_asset_amount_unfilled: u128,
) -> (r: Result<(), ErrorCode>)
    ensures
        match old(position).with_more_open(direction, base_asset_amount_unfilled) {
            Ok(after) => r is Ok && *final(position) == after,
            Err(e) => r == Err::<(), ErrorCode>(e) && *final(position) == *old(position),
        },
{
    let amount = cast_to_i128(base_asset_amount_unfilled)?;
    match direction {
        PositionDirection::Long => {
            match position.open_bids.checked_add(amount) {
                Some(bids) => { position.open_bids = bids; },
                None => { return Err(ErrorCode::MathError); },
            }
        },
        PositionDirection::Short => {
            match position.open_asks.checked_sub(amount) {
                Some(asks) => { position.open_asks = asks; },
                None => { return Err(ErrorCode::MathError); },
            }
        },
    }
    Ok(())
}

/// Takes size off the position's open interest on an order's side, when the
/// order fills or leaves the book. On an error the position is unchanged.
pub fn decrease_open_bids_and_asks(
    position: &mut MarketPosition,
    direction: PositionDirection,
    base_asset_amount_unfilled: u128,
) -> (r: Result<(), ErrorCode>)
    ensures
        match old(position).with_less_open(direction, base_asset_amount_unfilled) {
            Ok(after) => r is Ok && *final(position) == after,
            Err(e) => r == Err::<(), ErrorCode>(e) && *final(position) == *old(position),
        },
{
    let amount = cast_to_i128(base_asset_amount_unfilled)?;
    match direction {
        PositionDirection::Long => {
            match position.open_bids.checked_sub(amount) {
                Some(bids) => { position.open_bids = bids; },
                None => { return Err(ErrorCode::MathError); },
            }
        },
        PositionDirection::Short => {
            match position.open_asks.checked_add(amount) {
                Some(asks) => { position.open_asks = asks; },
                None => { return Err(ErrorCode::MathError); },
            }
        },
    }
    Ok(())
}

/// Adds realised profit or loss, or a fee or reward, to what the position
/// has not settled yet. On an error the position is unchanged.
pub fn update_unsettled_pnl(position: &mut MarketPosition, unsettled_pnl: i128) -> (r: Result<
    (),
    ErrorCode,
>)
    ensures
        match old(position).with_pnl(unsettled_pnl) {
            Ok(after) => r is Ok && *final(position) == after,
            Err(e) => r == Err::<(), ErrorCode>(e) && *final(position) == *old(position),
        },
{
    match position.unsettled_pnl.checked_add(unsettled_pnl) {
        Some(sum) => {
            position.unsettled_pnl = sum;
            Ok(())
        },
        None => Err(ErrorCode::MathError),
    }
}

/// A market's position stays where it is when its slot is rewritten with a
/// position that is still in use for the market.
pub proof fn lemma_position_index_kept(
    positions: Seq<MarketPosition>,
    p: int,
    position: MarketPosition,
    market_index: u64,
)
    requires
        position_index(positions, market_index) == Some(p),
        position.spec_is_for(market_index),
    ensures
        position_index(positions.update(p, position), market_index) == Some(p),
{
    lemma_first_match(positions, held_for(market_index));
    let after = positions.update(p, position);
    assert forall|j: int| 0 <= j < p implies !held_for(market_index)(#[trigger] after[j]) by {
        assert(after[j] == positions[j]);
    }
    assert(held_for(market_index)(after[p]));
    lemma_first_match_is(after, held_for(market_index), p);
}

/// A market has a position where one of the slots is in use for it.
pub proof fn lemma_position_index_some(
    positions: Seq<MarketPosition>,
    q: int,
    market_index: u64,
)
    requires
        0 <= q < positions.len(),
        positions[q].spec_is_for(market_index),
    ensures
        position_index(positions, market_index) is Some,
{
    lemma_first_match(positions, held_for(market_index));
    assert(held_for(market_index)(positions[q]));
}

} // verus!
