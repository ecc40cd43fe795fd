//! The records that the engine hands back for the caller's logs.

use crate::order::{Order, PositionDirection, Pubkey};
use vstd::prelude::*;

verus! {

/// What happened to an order.
#[derive(Clone, Copy, Debug, PartialEq, Eq, Structural)]
pub enum OrderAction {
    Place,
    Cancel,
    Fill,
}

/// One entry of an order's life, for the caller to append to its log: the
/// order as it stood, and for a fill, what the fill moved.
#[derive(Clone, Copy, Debug, PartialEq, Eq)]
pub struct OrderRecord {
    pub ts: i64,
    pub order: Order,
    pub user: Pubkey,
    pub authority: Pubkey,
    pub action: OrderAction,
    pub filler: Pubkey,
    pub trade_record_id: u64,
    pub base_asset_amount_filled: u128,
    pub quote_asset_amount_filled: u128,
    pub filler_reward: u128,
    pub fee: i128,
    pub quote_asset_amount_surplus: u128,
}

/// One trade against a market, for the caller to append to its log.
#[derive(Clone, Copy, Debug, PartialEq, Eq)]
pub struct TradeRecord {
    pub ts: i64,
    pub record_id: u64,
    pub user_authority: Pubkey,
    pub user: Pubkey,
    pub direction: PositionDirection,
    pub base_asset_amount: u128,
    pub quote_asset_amount: u128,
    pub mark_price_before: u128,
    pub mark_price_after: u128,
    pub fee: i128,
    pub token_discount: u128,
    pub quote_asset_amount_surplus: u128,
    pub referee_discount: u128,
    pub liquidation: bool,
    pub market_index: u64,
    pub oracle_price: i128,
}

impl OrderRecord {
    /// The record of an order being placed or cancelled: no filler, no
    /// trade, nothing filled.
    pub open spec fn unfilled(
        ts: i64,
        order: Order,
        user: Pubkey,
        authority: Pubkey,
        action: OrderAction,
    ) -> OrderRecord {
        OrderRecord {
            ts,
            order,
            user,
            authority,
            action,
            filler: crate::order::null_pubkey(),
            trade_record_id: 0,
            base_asset_amount_filled: 0,
            quote_asset_amount_filled: 0,
            filler_reward: 0,
            fee: 0,
            quote_asset_amount_surplus: 0,
        }
    }

    /// Builds the record of an order being placed or cancelled.
    pub fn new_unfilled(
        ts: i64,
        order: Order,
        user: Pubkey,
        authority: Pubkey,
        action: OrderAction,
    ) -> (record: OrderRecord)
        ensures
            record == OrderRecord::unfilled(ts, order, user, authority, action),
    {
        OrderRecord {
            ts,
            order,
            user,
            authority,
            action,
            filler: crate::order::default_pubkey(),
            trade_record_id: 0,
            base_asset_amount_filled: 0,
            quote_asset_amount_filled: 0,
            filler_reward: 0,
            fee: 0,
            quote_asset_amount_surplus: 0,
        }
    }
}

} // verus!
