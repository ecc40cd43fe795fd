//! Orders, the parameters they are placed with, and account keys.

use crate::error::ErrorCode;
use vstd::prelude::*;

verus! {

/// The identity of an account: 32 bytes, compared byte for byte.
pub type Pubkey = [u8; 32];

/// The key that stands for "no account": all bytes zero.
pub open spec fn null_pubkey() -> Pubkey {
    vstd::array::spec_array_fill_for_copy_type::<u8, 32>(0u8)
}

/// The key that stands for "no account".
pub fn default_pubkey() -> (key: Pubkey)
    ensures
        key == null_pubkey(),
        forall|i: int| 0 <= i < 32 ==> key[i] == 0u8,
{
    [0u8; 32]
}

/// Whether two keys name the same account.
pub fn same_pubkey(a: &Pubkey, b: &Pubkey) -> (same: bool)
    ensures
        same == (*a == *b),
{
    let mut i: usize = 0;
    while i < 32
        invariant
            i <= 32,
            forall|k: int| 0 <= k < i ==> a[k] == b[k],
        decreases 32 - i,
    {
        if a[i] != b[i] {
            return false;
        }
        i = i + 1;
    }
    assert(*a =~= *b);
    true
}

/// Whether a slot holds a live order. There is no "filled" or "cancelled"
/// state: an order that is no longer open is a slot reset to `Init`.
#[derive(Clone, Copy, Debug, PartialEq, Eq, Structural)]
pub enum OrderStatus {
    Init,
    Open,
}

#[derive(Clone, Copy, Debug, PartialEq, Eq, Structural)]
pub enum OrderType {
    Market,
    Limit,
    TriggerMarket,
    TriggerLimit,
}

#[derive(Clone, Copy, Debug, PartialEq, Eq, Structural)]
pub enum PositionDirection {
    Long,
    Short,
}

#[derive(Clone, Copy, Debug, PartialEq, Eq, Structural)]
pub enum OrderTriggerCondition {
    Above,
    Below,
}

/// The fee schedule bucket an order was placed under.
#[derive(Clone, Copy, Debug, PartialEq, Eq, Structural)]
pub enum OrderDiscountTier {
    NoDiscount,
    First,
    Second,
    Third,
    Fourth,
}

/// What a trader asks for when placing an order.
#[derive(Clone, Copy, Debug, PartialEq, Eq)]
pub struct OrderParams {
    pub order_type: OrderType,
    pub direction: PositionDirection,
    pub user_order_id: u8,
    pub quote_asset_amount: u128,
    pub base_asset_amount: u128,
    pub price: u128,
    pub market_index: u64,
    pub reduce_only: bool,
    pub post_only: bool,
    pub immediate_or_cancel: bool,
    pub trigger_price: u128,
    pub trigger_condition: OrderTriggerCondition,
    pub oracle_price_offset: i128,
}

impl OrderParams {
    pub open spec fn spec_has_auction(&self) -> bool {
        self.base_asset_amount > 0 && !self.post_only
    }

    /// Whether an order of these parameters gets an auction price path: it
    /// names a base size and does not insist on resting as a maker.
    #[verifier::when_used_as_spec(spec_has_auction)]
    pub fn has_auction(&self) -> (r: bool)
        ensures
            r == self.spec_has_auction(),
    {
        self.base_asset_amount > 0 && !self.post_only
    }
}

/// One trading intent, as it sits in a trader's order slot.
#[derive(Clone, Copy, Debug, PartialEq, Eq)]
pub struct Order {
    pub status: OrderStatus,
    pub order_type: OrderType,
    pub ts: i64,
    pub order_id: u64,
    pub user_order_id: u8,
    pub market_index: u64,
    pub price: u128,
    pub user_base_asset_amount: i128,
    pub base_asset_amount: u128,
    pub quote_asset_amount: u128,
    pub base_asset_amount_filled: u128,
    pub quote_asset_amount_filled: u128,
    pub fee: i128,
    pub direction: PositionDirection,
    pub reduce_only: bool,
    pub post_only: bool,
    pub immediate_or_cancel: bool,
    pub discount_tier: OrderDiscountTier,
    pub trigger_price: u128,
    pub trigger_condition: OrderTriggerCondition,
    pub referrer: Pubkey,
    pub oracle_price_offset: i128,
    pub auction_start_price: u128,
    pub auction_end_price: u128,
}

impl Order {
    /// The value of a slot that holds no order.
    pub open spec fn empty() -> Order {
        Order {
            status: OrderStatus::Init,
            order_type: OrderType::Limit,
            ts: 0,
            order_id: 0,
            user_order_id: 0,
            market_index: 0,
            price: 0,
            user_base_asset_amount: 0,
            base_asset_amount: 0,
            quote_asset_amount: 0,
            base_asset_amount_filled: 0,
            quote_asset_amount_filled: 0,
            fee: 0,
            direction: PositionDirection::Long,
            reduce_only: false,
            post_only: false,
            immediate_or_cancel: false,
            discount_tier: OrderDiscountTier::NoDiscount,
            trigger_price: 0,
            trigger_condition: OrderTriggerCondition::Above,
            referrer: null_pubkey(),
            oracle_price_offset: 0,
            auction_start_price: 0,
            auction_end_price: 0,
        }
    }

    pub open spec fn is_open(self) -> bool {
        self.status == OrderStatus::Open
    }

    /// Whether the order is priced relative to the oracle.
    #[verifier::when_used_as_spec(spec_has_oracle_price_offset)]
    pub fn has_oracle_price_offset(&self) -> (r: bool)
        ensures
            r == self.spec_has_oracle_price_offset(),
    {
        self.oracle_price_offset != 0
    }

    pub open spec fn spec_has_oracle_price_offset(&self) -> bool {
        self.oracle_price_offset != 0
    }

    /// The part of the target size that no fill has covered yet, where the
    /// filled size does not exceed the target.
    pub open spec fn base_asset_amount_unfilled(self) -> Result<u128, ErrorCode> {
        if self.base_asset_amount_filled <= self.base_asset_amount {
            Ok((self.base_asset_amount - self.base_asset_amount_filled) as u128)
        } else {
            Err(ErrorCode::MathError)
        }
    }

    /// The part of the target size that no fill has covered yet.
    pub fn get_base_asset_amount_unfilled(&self) -> (r: Result<u128, ErrorCode>)
        ensures
            r == self.base_asset_amount_unfilled(),
    {
        match self.base_asset_amount.checked_sub(self.base_asset_amount_filled) {
            Some(unfilled) => Ok(unfilled),
            None => Err(ErrorCode::MathError),
        }
    }

    /// The order's limit price: its own price, or for an order priced
    /// relative to the oracle, the oracle price plus the order's offset.
    ///
    /// An oracle-relative order without a valid oracle price has no limit
    /// price (`OracleNotFound`); one whose offset brings the price to zero
    /// or below has none either (`InvalidOracleOffset`).
    pub open spec fn limit_price(self, valid_oracle_price: Option<i128>) -> Result<
        u128,
        ErrorCode,
    > {
        if self.oracle_price_offset != 0 {
            match valid_oracle_price {
                Some(oracle_price) => {
                    let price = oracle_price + self.oracle_price_offset;
                    if price < i128::MIN || price > i128::MAX {
                        Err(ErrorCode::MathError)
                    } else if price <= 0 {
                        Err(ErrorCode::InvalidOracleOffset)
                    } else {
                        Ok(price as u128)
                    }
                },
                None => Err(ErrorCode::OracleNotFound),
            }
        } else {
            Ok(self.price)
        }
    }

    /// The order's limit price, given the oracle price if a valid one is known.
    pub fn get_limit_price(&self, valid_oracle_price: Option<i128>) -> (r: Result<u128, ErrorCode>)
        ensures
            r == self.limit_price(valid_oracle_price),
    {
        if self.has_oracle_price_offset() {
            match valid_oracle_price {
                Some(oracle_price) => {
                    match oracle_price.checked_add(self.oracle_price_offset) {
                        None => Err(ErrorCode::MathError),
                        Some(price) => {
                            if price <= 0 {
                                Err(ErrorCode::InvalidOracleOffset)
                            } else {
                                Ok(price as u128)
                            }
                        },
                    }
                },
                None => Err(ErrorCode::OracleNotFound),
            }
        } else {
            Ok(self.price)
        }
    }
}

impl Default for Order {
    /// A slot that holds no order.
    fn default() -> (order: Order)
        ensures
            order == Order::empty(),
    {
        Order {
            status: OrderStatus::Init,
            order_type: OrderType::Limit,
            ts: 0,
            order_id: 0,
            user_order_id: 0,
            market_index: 0,
            price: 0,
            user_base_asset_amount: 0,
            base_asset_amount: 0,
            quote_asset_amount: 0,
            base_asset_amount_filled: 0,
            quote_asset_amount_filled: 0,
            fee: 0,
            direction: PositionDirection::Long,
            reduce_only: false,
            post_only: false,
            immediate_or_cancel: false,
            discount_tier: OrderDiscountTier::NoDiscount,
            trigger_price: 0,
            trigger_condition: OrderTriggerCondition::Above,
            referrer: default_pubkey(),
            oracle_price_offset: 0,
            auction_start_price: 0,
            auction_end_price: 0,
        }
    }
}

} // verus!
