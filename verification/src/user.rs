//! A trader's account, the lookups in its order slots, and what holds of
//! every account that the engine has worked on.

use crate::error::ErrorCode;
use crate::order::{Order, OrderStatus, PositionDirection, Pubkey};
use crate::position::{held_for, lemma_position_index_some, position_index, MarketPosition};
use crate::scan::{
    first_match, is_first_match, lemma_first_match, lemma_first_match_is, lemma_first_match_none,
    no_match,
};
use vstd::prelude::*;

verus! {

/// How many orders one trader can have open at a time.
pub const MAX_ORDERS: usize = 32;

/// A trader's account: a fixed number of order slots and position slots,
/// found by linear scan, and the totals the trader has run up.
#[derive(Clone, Copy, Debug, PartialEq, Eq)]
pub struct User {
    pub authority: Pubkey,
    pub next_order_id: u64,
    pub total_fee_paid: u64,
    pub total_fee_rebate: u64,
    pub total_token_discount: u128,
    pub total_referral_reward: u128,
    pub total_referee_discount: u128,
    pub positions: [MarketPosition; 5],
    pub orders: [Order; 32],
}

/// The test an order slot passes when it holds no order.
pub open spec fn vacant() -> spec_fn(Order) -> bool {
    |order: Order| order.status == OrderStatus::Init
}

/// The test an order slot passes when its order carries the given id.
pub open spec fn with_order_id(order_id: u64) -> spec_fn(Order) -> bool {
    |order: Order| order.order_id == order_id
}

/// The test an order slot passes when its order carries the given
/// trader-chosen id.
pub open spec fn with_user_order_id(user_order_id: u8) -> spec_fn(Order) -> bool {
    |order: Order| order.user_order_id == user_order_id
}

impl User {
    /// The account with one order slot replaced.
    pub open spec fn with_order(self, i: int, order: Order) -> User {
        User { orders: vstd::array::spec_array_update(self.orders, i, order), ..self }
    }

    /// The account with one position slot replaced.
    pub open spec fn with_position(self, i: int, position: MarketPosition) -> User {
        User { positions: vstd::array::spec_array_update(self.positions, i, position), ..self }
    }

    /// The account with a new order in slot `i` and the order's position in
    /// slot `p`, and its order id counter moved on by one.
    pub open spec fn with_order_placed(
        self,
        i: int,
        order: Order,
        p: int,
        position: MarketPosition,
    ) -> User {
        User { next_order_id: (self.next_order_id + 1) as u64, ..self }.with_position(
            p,
            position,
        ).with_order(i, order)
    }

    /// The slot the next order goes to: the first that holds none.
    pub open spec fn free_order_index(self) -> Option<int> {
        first_match(self.orders@, vacant())
    }

    /// The first slot whose order carries `order_id`.
    pub open spec fn order_index_by_id(self, order_id: u64) -> Option<int> {
        first_match(self.orders@, with_order_id(order_id))
    }

    /// The first slot whose order carries `user_order_id`.
    pub open spec fn order_index_by_user_order_id(self, user_order_id: u8) -> Option<int> {
        first_match(self.orders@, with_user_order_id(user_order_id))
    }

    /// The open order in a slot, or `OrderNotOpen` where the slot holds none.
    pub open spec fn open_order_at(self, order_index: int) -> Result<Order, ErrorCode> {
        if self.orders[order_index].status == OrderStatus::Open {
            Ok(self.orders[order_index])
        } else {
            Err(ErrorCode::OrderNotOpen)
        }
    }

    /// The slot of the open order with the given id: the first slot whose
    /// order carries the id (`OrderDoesNotExist` where none does), which has
    /// to hold an open order (`OrderNotOpen`).
    pub open spec fn open_order_index_by_id(self, order_id: u64) -> Result<int, ErrorCode> {
        match self.order_index_by_id(order_id) {
            None => Err(ErrorCode::OrderDoesNotExist),
            Some(i) => match self.open_order_at(i) {
                Ok(_) => Ok(i),
                Err(e) => Err(e),
            },
        }
    }

    /// Reads a slot that has to hold an open order.
    pub fn get_open_order(&self, order_index: usize) -> (r: Result<Order, ErrorCode>)
        requires
            order_index < 32,
        ensures
            r == self.open_order_at(order_index as int),
    {
        let order = self.orders[order_index];
        if order.status != OrderStatus::Open {
            return Err(ErrorCode::OrderNotOpen);
        }
        Ok(order)
    }

    /// Finds the slot of the open order with the given id.
    pub fn find_open_order_by_id(&self, order_id: u64) -> (r: Result<usize, ErrorCode>)
        ensures
            match self.open_order_index_by_id(order_id) {
                Ok(i) => r == Ok::<usize, ErrorCode>(i as usize) && 0 <= i < 32,
                Err(e) => r == Err::<usize, ErrorCode>(e),
            },
    {
        let order_index = match self.find_order_by_id(order_id) {
            Some(i) => i,
            None => { return Err(ErrorCode::OrderDoesNotExist); },
        };
        proof {
            lemma_first_match(self.orders@, with_order_id(order_id));
        }
        self.get_open_order(order_index)?;
        Ok(order_index)
    }

    /// A new account for `authority`: no orders, no positions, and 1 as the
    /// id of the first order.
    pub fn new(authority: Pubkey) -> (user: User)
        ensures
            user.authority == authority,
            user.next_order_id == 1,
            user.total_fee_paid == 0,
            user.total_fee_rebate == 0,
            user.total_token_discount == 0,
            user.total_referral_reward == 0,
            user.total_referee_discount == 0,
            forall|i: int| 0 <= i < 5 ==> user.positions[i] == MarketPosition::empty(),
            forall|i: int| 0 <= i < 32 ==> user.orders[i] == Order::empty(),
            user.wf(),
    {
        User {
            authority,
            next_order_id: 1,
            total_fee_paid: 0,
            total_fee_rebate: 0,
            total_token_discount: 0,
            total_referral_reward: 0,
            total_referee_discount: 0,
            positions: [MarketPosition::default();5],
            orders: [Order::default();32],
        }
    }

    /// Scans for the first slot that holds no order.
    pub fn find_free_order_slot(&self) -> (r: Option<usize>)
        ensures
            match self.free_order_index() {
                Some(i) => r == Some(i as usize),
                None => r is None,
            },
    {
        let mut i: usize = 0;
        while i < 32
            invariant
                i <= 32,
                forall|j: int| 0 <= j < i ==> !vacant()(#[trigger] self.orders@[j]),
            decreases 32 - i,
        {
            if self.orders[i].status == OrderStatus::Init {
                proof {
                    assert(is_first_match(self.orders@, vacant(), i as int));
                    lemma_first_match_is(self.orders@, vacant(), i as int);
                }
                return Some(i);
            }
            i = i + 1;
        }
        proof {
            assert(no_match(self.orders@, vacant()));
            lemma_first_match_none(self.orders@, vacant());
        }
        None
    }

    /// Scans for the first slot whose order carries `order_id`.
    pub fn find_order_by_id(&self, order_id: u64) -> (r: Option<usize>)
        ensures
            match self.order_index_by_id(order_id) {
                Some(i) => r == Some(i as usize),
                None => r is None,
            },
    {
        let mut i: usize = 0;
        while i < 32
            invariant
                i <= 32,
                forall|j: int| 0 <= j < i ==> !with_order_id(order_id)(#[trigger] self.orders@[j]),
            decreases 32 - i,
        {
            if self.orders[i].order_id == order_id {
                proof {
                    assert(is_first_match(self.orders@, with_order_id(order_id), i as int));
                    lemma_first_match_is(self.orders@, with_order_id(order_id), i as int);
                }
                return Some(i);
            }
            i = i + 1;
        }
        proof {
            assert(no_match(self.orders@, with_order_id(order_id)));
            lemma_first_match_none(self.orders@, with_order_id(order_id));
        }
        None
    }

    /// Scans for the first slot whose order carries `user_order_id`.
    pub fn find_order_by_user_order_id(&self, user_order_id: u8) -> (r: Option<usize>)
        ensures
            match self.order_index_by_user_order_id(user_order_id) {
                Some(i) => r == Some(i as usize),
                None => r is None,
            },
    {
        let mut i: usize = 0;
        while i < 32
            invariant
                i <= 32,
                forall|j: int|
                    0 <= j < i ==> !with_user_order_id(user_order_id)(#[trigger] self.orders@[j]),
            decreases 32 - i,
        {
            if self.orders[i].user_order_id == user_order_id {
                proof {
                    assert(is_first_match(
                        self.orders@,
                        with_user_order_id(user_order_id),
                        i as int,
                    ));
                    lemma_first_match_is(self.orders@, with_user_order_id(user_order_id), i as int);
                }
                return Some(i);
            }
            i = i + 1;
        }
        proof {
            assert(no_match(self.orders@, with_user_order_id(user_order_id)));
            lemma_first_match_none(self.orders@, with_user_order_id(user_order_id));
        }
        None
    }
}

/// Whether an order is open in the given market.
pub open spec fn open_in(order: Order, market_index: u64) -> bool {
    order.status == OrderStatus::Open && order.market_index == market_index
}

/// How many of the orders are open in the given market.
pub open spec fn open_orders_in(orders: Seq<Order>, market_index: u64) -> nat
    decreases orders.len(),
{
    if orders.len() == 0 {
        0
    } else {
        open_orders_in(orders.drop_last(), market_index) + if open_in(
            orders.last(),
            market_index,
        ) {
            1nat
        } else {
            0nat
        }
    }
}

/// Replacing one order changes the count of a market by what the old order
/// took from it and the new one adds to it.
pub proof fn lemma_open_orders_in_update(orders: Seq<Order>, i: int, order: Order, market_index: u64)
    requires
        0 <= i < orders.len(),
    ensures
        open_orders_in(orders.update(i, order), market_index) + (if open_in(
            orders[i],
            market_index,
        ) {
            1nat
        } else {
            0nat
        }) == open_orders_in(orders, market_index) + (if open_in(order, market_index) {
            1nat
        } else {
            0nat
        }),
    decreases orders.len(),
{
    let updated = orders.update(i, order);
    if i == orders.len() - 1 {
        assert(updated.drop_last() =~= orders.drop_last());
    } else {
        assert(updated.drop_last() =~= orders.drop_last().update(i, order));
        lemma_open_orders_in_update(orders.drop_last(), i, order, market_index);
    }
}

/// A market's count is at least one where an order is open in it.
pub proof fn lemma_open_orders_in_positive(orders: Seq<Order>, k: int, market_index: u64)
    requires
        0 <= k < orders.len(),
        open_in(orders[k], market_index),
    ensures
        open_orders_in(orders, market_index) >= 1,
    decreases orders.len(),
{
    if k < orders.len() - 1 {
        lemma_open_orders_in_positive(orders.drop_last(), k, market_index);
    }
}

/// A market's count is zero where no order is open in it.
pub proof fn lemma_open_orders_in_zero(orders: Seq<Order>, market_index: u64)
    requires
        forall|k: int| 0 <= k < orders.len() ==> !open_in(#[trigger] orders[k], market_index),
    ensures
        open_orders_in(orders, market_index) == 0,
    decreases orders.len(),
{
    if orders.len() > 0 {
        assert(!open_in(orders[orders.len() - 1], market_index));
        assert forall|k: int| 0 <= k < orders.drop_last().len() implies !open_in(
            #[trigger] orders.drop_last()[k],
            market_index,
        ) by {
            assert(orders.drop_last()[k] == orders[k]);
        }
        lemma_open_orders_in_zero(orders.drop_last(), market_index);
    }
}

/// What is left to fill of an order, as far as it rests on the given side
/// of the given market.
pub open spec fn unfilled_on(order: Order, market_index: u64, direction: PositionDirection) -> nat {
    if open_in(order, market_index) && order.direction == direction
        && order.base_asset_amount_filled <= order.base_asset_amount {
        (order.base_asset_amount - order.base_asset_amount_filled) as nat
    } else {
        0
    }
}

/// What is left to fill of all the orders that rest on the given side of
/// the given market.
pub open spec fn unfilled_in(
    orders: Seq<Order>,
    market_index: u64,
    direction: PositionDirection,
) -> nat
    decreases orders.len(),
{
    if orders.len() == 0 {
        0
    } else {
        unfilled_in(orders.drop_last(), market_index, direction) + unfilled_on(
            orders.last(),
            market_index,
            direction,
        )
    }
}

/// Replacing one order changes what rests on a side of a market by what
/// the old order had resting there and what the new one has.
pub proof fn lemma_unfilled_in_update(
    orders: Seq<Order>,
    i: int,
    order: Order,
    market_index: u64,
    direction: PositionDirection,
)
    requires
        0 <= i < orders.len(),
    ensures
        unfilled_in(orders.update(i, order), market_index, direction) + unfilled_on(
            orders[i],
            market_index,
            direction,
        ) == unfilled_in(orders, market_index, direction) + unfilled_on(
            order,
            market_index,
            direction,
        ),
    decreases orders.len(),
{
    let updated = orders.update(i, order);
    if i == orders.len() - 1 {
        assert(updated.drop_last() =~= orders.drop_last());
    } else {
        assert(updated.drop_last() =~= orders.drop_last().update(i, order));
        lemma_unfilled_in_update(orders.drop_last(), i, order, market_index, direction);
    }
}

/// Nothing rests in a market in which no order is open.
pub proof fn lemma_unfilled_in_zero(
    orders: Seq<Order>,
    market_index: u64,
    direction: PositionDirection,
)
    requires
        forall|k: int| 0 <= k < orders.len() ==> !open_in(#[trigger] orders[k], market_index),
    ensures
        unfilled_in(orders, market_index, direction) == 0,
    decreases orders.len(),
{
    if orders.len() > 0 {
        assert(!open_in(orders[orders.len() - 1], market_index));
        assert forall|k: int| 0 <= k < orders.drop_last().len() implies !open_in(
            #[trigger] orders.drop_last()[k],
            market_index,
        ) by {
            assert(orders.drop_last()[k] == orders[k]);
        }
        lemma_unfilled_in_zero(orders.drop_last(), market_index, direction);
    }
}

/// Whether the open interest of a position covers what the orders have
/// resting in its market: the bids at least what is left to fill of the
/// long orders, the asks, counted downward, at least what is left to fill
/// of the short ones. In particular the bids are not below zero and the
/// asks not above.
pub open spec fn covers_resting_orders(orders: Seq<Order>, position: MarketPosition) -> bool {
    &&& position.open_bids >= unfilled_in(orders, position.market_index, PositionDirection::Long)
    &&& -position.open_asks >= unfilled_in(
        orders,
        position.market_index,
        PositionDirection::Short,
    )
}

impl User {
    /// Whether the account is one the order engine could have produced.
    ///
    /// - A slot without an open order holds the empty order.
    /// - An open order has not been filled beyond its size.
    /// - The ids of open orders are below the account's next order id and
    ///   differ from each other; so do the ids chosen by the trader, where
    ///   they are not zero.
    /// - Every open order has a position in its market.
    /// - No two positions in use are in the same market.
    /// - A position in use counts exactly the open orders of its market, and
    ///   its open interest covers what those orders have left to fill: the
    ///   bids are at or above zero, the asks at or below.
    pub open spec fn wf(self) -> bool {
        &&& forall|k: int|
            0 <= k < 32 && (#[trigger] self.orders[k]).status != OrderStatus::Open
                ==> self.orders[k] == Order::empty()
        &&& forall|k: int|
            0 <= k < 32 && (#[trigger] self.orders[k]).status == OrderStatus::Open ==> {
                &&& self.orders[k].base_asset_amount_filled <= self.orders[k].base_asset_amount
                &&& self.orders[k].order_id < self.next_order_id
                &&& crate::position::position_index(self.positions@, self.orders[k].market_index)
                    is Some
            }
        &&& forall|k: int, l: int|
            0 <= k < l < 32 && (#[trigger] self.orders[k]).status == OrderStatus::Open && (
            #[trigger] self.orders[l]).status == OrderStatus::Open ==> {
                &&& self.orders[k].order_id != self.orders[l].order_id
                &&& self.orders[k].user_order_id != 0 ==> self.orders[k].user_order_id
                    != self.orders[l].user_order_id
            }
        &&& forall|p: int, q: int|
            0 <= p < q < 5 && !(#[trigger] self.positions[p]).spec_is_available() && !(
            #[trigger] self.positions[q]).spec_is_available() ==> self.positions[p].market_index
                != self.positions[q].market_index
        &&& forall|p: int|
            0 <= p < 5 && !(#[trigger] self.positions[p]).spec_is_available() ==> {
                &&& self.positions[p].open_orders == open_orders_in(
                    self.orders@,
                    self.positions[p].market_index,
                )
                &&& covers_resting_orders(self.orders@, self.positions[p])
            }
    }
}

/// Whether an account that may be absent is, where it is there, one the
/// engine could have produced.
pub open spec fn is_wf_if_present(account: Option<User>) -> bool {
    match account {
        Some(account) => account.wf(),
        None => true,
    }
}

/// In an account that the engine could have produced, a market without a
/// position has no open orders, and so nothing resting.
pub proof fn lemma_no_position_no_open_orders(user: User, market_index: u64)
    requires
        user.wf(),
        position_index(user.positions@, market_index) is None,
    ensures
        open_orders_in(user.orders@, market_index) == 0,
        unfilled_in(user.orders@, market_index, PositionDirection::Long) == 0,
        unfilled_in(user.orders@, market_index, PositionDirection::Short) == 0,
{
    assert forall|k: int| 0 <= k < 32 implies !open_in(#[trigger] user.orders@[k], market_index) by {
        if open_in(user.orders@[k], market_index) {
            assert(user.orders[k].status == OrderStatus::Open);
        }
    }
    lemma_open_orders_in_zero(user.orders@, market_index);
    lemma_unfilled_in_zero(user.orders@, market_index, PositionDirection::Long);
    lemma_unfilled_in_zero(user.orders@, market_index, PositionDirection::Short);
}

/// In an account that the engine could have produced, the position of an
/// open order's market counts at least that order.
pub proof fn lemma_open_order_is_counted(user: User, k: int)
    requires
        user.wf(),
        0 <= k < 32,
        user.orders[k].status == OrderStatus::Open,
    ensures
        position_index(user.positions@, user.orders[k].market_index) matches Some(p) && 0 <= p < 5
            && user.positions[p].spec_is_for(user.orders[k].market_index)
            && user.positions[p].open_orders >= 1,
{
    let m = user.orders[k].market_index;
    lemma_first_match(user.positions@, held_for(m));
    let p = position_index(user.positions@, m)->Some_0;
    assert(user.positions[p].spec_is_for(m));
    lemma_open_orders_in_positive(user.orders@, k, m);
}

/// In an account that the engine could have produced, the open interest of
/// a position in use is at or above zero on the side of the bids, and at or
/// below zero on the side of the asks.
pub proof fn lemma_open_interest_has_its_sign(user: User, p: int)
    requires
        user.wf(),
        0 <= p < 5,
    ensures
        user.positions[p].open_bids >= 0,
        user.positions[p].open_asks <= 0,
{
    if !user.positions[p].spec_is_available() {
        assert(covers_resting_orders(user.orders@, user.positions[p]));
    }
}

/// Whether `position` may take the place of the position in slot `p`
/// without the account's orders being touched: it keeps the count of open
/// orders and covers what the orders have resting, and either keeps the
/// market of a slot that was in use, or takes a free slot for a market that
/// had no position.
pub open spec fn keeps_position_count(user: User, p: int, position: MarketPosition) -> bool {
    &&& position.open_orders == user.positions[p].open_orders
    &&& covers_resting_orders(user.orders@, position)
    &&& {
        ||| {
            &&& !user.positions[p].spec_is_available()
            &&& position.market_index == user.positions[p].market_index
        }
        ||| {
            &&& user.positions[p].spec_is_available()
            &&& position_index(user.positions@, position.market_index) is None
        }
    }
}

/// Rewriting a position keeps an account one the engine could have
/// produced, where the orders it counts are left alone.
pub proof fn lemma_position_rewritten_keeps_wf(user: User, p: int, position: MarketPosition)
    requires
        user.wf(),
        0 <= p < 5,
        keeps_position_count(user, p, position),
    ensures
        user.with_position(p, position).wf(),
{
    let after = user.with_position(p, position);
    let m = position.market_index;
    assert(after.positions@ == user.positions@.update(p, position));
    assert(after.orders@ == user.orders@);
    if user.positions[p].spec_is_available() {
        lemma_first_match(user.positions@, held_for(m));
        lemma_no_position_no_open_orders(user, m);
    }
    assert forall|k: int|
        0 <= k < 32 && (#[trigger] after.orders[k]).status == OrderStatus::Open implies {
        &&& after.orders[k].base_asset_amount_filled <= after.orders[k].base_asset_amount
        &&& after.orders[k].order_id < after.next_order_id
        &&& position_index(after.positions@, after.orders[k].market_index) is Some
    } by {
        let mk = after.orders[k].market_index;
        lemma_open_order_is_counted(user, k);
        let q = position_index(user.positions@, mk)->Some_0;
        if q == p {
            assert(position.spec_is_for(mk));
        } else {
            assert(after.positions@[q] == user.positions@[q]);
        }
        lemma_position_index_some(after.positions@, q, mk);
    }
    assert forall|a: int, b: int|
        0 <= a < b < 5 && !(#[trigger] after.positions[a]).spec_is_available() && !(
        #[trigger] after.positions[b]).spec_is_available() implies after.positions[a].market_index
        != after.positions[b].market_index by {
        if a != p {
            assert(after.positions[a] == user.positions[a]);
            if user.positions[p].spec_is_available() && b == p {
                assert(!held_for(m)(user.positions@[a]));
            }
        }
        if b != p {
            assert(after.positions[b] == user.positions[b]);
            if user.positions[p].spec_is_available() && a == p {
                assert(!held_for(m)(user.positions@[b]));
            }
        }
    }
    assert forall|q: int|
        0 <= q < 5 && !(#[trigger] after.positions[q]).spec_is_available() implies {
        &&& after.positions[q].open_orders == open_orders_in(
            after.orders@,
            after.positions[q].market_index,
        )
        &&& covers_resting_orders(after.orders@, after.positions[q])
    } by {
        if q != p {
            assert(after.positions[q] == user.positions[q]);
        }
    }
}

/// Rewriting an open order keeps an account one the engine could have
/// produced, where the order stays open on its side of its market under its
/// ids and at its size, and has no less filled than before and no more
/// than its size.
pub proof fn lemma_order_rewritten_keeps_wf(user: User, i: int, order: Order)
    requires
        user.wf(),
        0 <= i < 32,
        user.orders[i].status == OrderStatus::Open,
        order.status == OrderStatus::Open,
        order.market_index == user.orders[i].market_index,
        order.direction == user.orders[i].direction,
        order.order_id == user.orders[i].order_id,
        order.user_order_id == user.orders[i].user_order_id,
        order.base_asset_amount == user.orders[i].base_asset_amount,
        user.orders[i].base_asset_amount_filled <= order.base_asset_amount_filled
            <= order.base_asset_amount,
    ensures
        user.with_order(i, order).wf(),
{
    let after = user.with_order(i, order);
    assert(after.orders@ == user.orders@.update(i, order));
    assert(after.positions@ == user.positions@);
    assert forall|k: int, l: int|
        0 <= k < l < 32 && (#[trigger] after.orders[k]).status == OrderStatus::Open && (
        #[trigger] after.orders[l]).status == OrderStatus::Open implies {
        &&& after.orders[k].order_id != after.orders[l].order_id
        &&& after.orders[k].user_order_id != 0 ==> after.orders[k].user_order_id
            != after.orders[l].user_order_id
    } by {
        assert(user.orders[k].status == OrderStatus::Open);
        assert(user.orders[l].status == OrderStatus::Open);
    }
    assert forall|q: int|
        0 <= q < 5 && !(#[trigger] after.positions[q]).spec_is_available() implies {
        &&& after.positions[q].open_orders == open_orders_in(
            after.orders@,
            after.positions[q].market_index,
        )
        &&& covers_resting_orders(after.orders@, after.positions[q])
    } by {
        let mq = after.positions[q].market_index;
        lemma_open_orders_in_update(user.orders@, i, order, mq);
        lemma_unfilled_in_update(user.orders@, i, order, mq, PositionDirection::Long);
        lemma_unfilled_in_update(user.orders@, i, order, mq, PositionDirection::Short);
        assert(covers_resting_orders(user.orders@, user.positions[q]));
    }
}

/// Booking a fill keeps an account one the engine could have produced: the
/// order has `filled` more filled and is otherwise what it was, and the
/// position of its market gives up no more open interest on the order's
/// side than that.
pub proof fn lemma_fill_booked_keeps_wf(
    user: User,
    i: int,
    order: Order,
    p: int,
    position: MarketPosition,
    filled: nat,
)
    requires
        user.wf(),
        0 <= i < 32,
        user.orders[i].status == OrderStatus::Open,
        position_index(user.positions@, user.orders[i].market_index) == Some(p),
        order == (Order {
            base_asset_amount_filled: order.base_asset_amount_filled,
            quote_asset_amount_filled: order.quote_asset_amount_filled,
            fee: order.fee,
            ..user.orders[i]
        }),
        order.base_asset_amount_filled == user.orders[i].base_asset_amount_filled + filled,
        order.base_asset_amount_filled <= order.base_asset_amount,
        position.market_index == user.positions[p].market_index,
        position.open_orders == user.positions[p].open_orders,
        position.open_bids == user.positions[p].open_bids || (order.direction
            == PositionDirection::Long && position.open_bids == user.positions[p].open_bids
            - filled),
        position.open_asks == user.positions[p].open_asks || (order.direction
            == PositionDirection::Short && position.open_asks == user.positions[p].open_asks
            + filled),
    ensures
        user.with_order(i, order).with_position(p, position).wf(),
{
    let m = user.orders[i].market_index;
    lemma_open_order_is_counted(user, i);
    lemma_order_rewritten_keeps_wf(user, i, order);
    let written = user.with_order(i, order);
    assert(written.orders@ == user.orders@.update(i, order));
    lemma_unfilled_in_update(user.orders@, i, order, m, PositionDirection::Long);
    lemma_unfilled_in_update(user.orders@, i, order, m, PositionDirection::Short);
    assert(covers_resting_orders(user.orders@, user.positions[p]));
    assert(written.positions[p] == user.positions[p]);
    lemma_position_rewritten_keeps_wf(written, p, position);
}

/// Taking an open order off the book keeps an account one the engine could
/// have produced: the slot is emptied, and the position of the order's
/// market counts one order less and gives up no more open interest on the
/// order's side than the order had left to fill.
pub proof fn lemma_order_removed_keeps_wf(user: User, i: int, p: int, position: MarketPosition)
    requires
        user.wf(),
        0 <= i < 32,
        user.orders[i].status == OrderStatus::Open,
        position_index(user.positions@, user.orders[i].market_index) == Some(p),
        position.market_index == user.orders[i].market_index,
        position.open_orders + 1 == user.positions[p].open_orders,
        position.open_bids + unfilled_on(
            user.orders[i],
            user.orders[i].market_index,
            PositionDirection::Long,
        ) >= user.positions[p].open_bids,
        position.open_asks - unfilled_on(
            user.orders[i],
            user.orders[i].market_index,
            PositionDirection::Short,
        ) <= user.positions[p].open_asks,
    ensures
        user.with_position(p, position).with_order(i, Order::empty()).wf(),
{
    let after = user.with_position(p, position).with_order(i, Order::empty());
    let m = user.orders[i].market_index;
    lemma_open_order_is_counted(user, i);
    assert(after.orders@ == user.orders@.update(i, Order::empty()));
    assert(after.positions@ == user.positions@.update(p, position));
    lemma_open_orders_in_update(user.orders@, i, Order::empty(), m);
    assert(position.open_orders == open_orders_in(after.orders@, m));
    lemma_unfilled_in_update(user.orders@, i, Order::empty(), m, PositionDirection::Long);
    lemma_unfilled_in_update(user.orders@, i, Order::empty(), m, PositionDirection::Short);
    assert(covers_resting_orders(user.orders@, user.positions[p]));
    assert(covers_resting_orders(after.orders@, position));

    assert forall|k: int|
        0 <= k < 32 && (#[trigger] after.orders[k]).status == OrderStatus::Open implies {
        &&& after.orders[k].base_asset_amount_filled <= after.orders[k].base_asset_amount
        &&& after.orders[k].order_id < after.next_order_id
        &&& position_index(after.positions@, after.orders[k].market_index) is Some
    } by {
        let mk = after.orders[k].market_index;
        assert(after.orders[k] == user.orders[k]);
        lemma_open_order_is_counted(user, k);
        let q = position_index(user.positions@, mk)->Some_0;
        if q == p {
            lemma_open_orders_in_positive(after.orders@, k, m);
            assert(position.spec_is_for(mk));
        } else {
            assert(after.positions@[q] == user.positions@[q]);
        }
        lemma_position_index_some(after.positions@, q, mk);
    }
    assert forall|k: int, l: int|
        0 <= k < l < 32 && (#[trigger] after.orders[k]).status == OrderStatus::Open && (
        #[trigger] after.orders[l]).status == OrderStatus::Open implies {
        &&& after.orders[k].order_id != after.orders[l].order_id
        &&& after.orders[k].user_order_id != 0 ==> after.orders[k].user_order_id
            != after.orders[l].user_order_id
    } by {
        assert(after.orders[k] == user.orders[k]);
        assert(after.orders[l] == user.orders[l]);
    }
    assert forall|a: int, b: int|
        0 <= a < b < 5 && !(#[trigger] after.positions[a]).spec_is_available() && !(
        #[trigger] after.positions[b]).spec_is_available() implies after.positions[a].market_index
        != after.positions[b].market_index by {
        if a != p {
            assert(after.positions[a] == user.positions[a]);
        }
        if b != p {
            assert(after.positions[b] == user.positions[b]);
        }
    }
    assert forall|q: int|
        0 <= q < 5 && !(#[trigger] after.positions[q]).spec_is_available() implies {
        &&& after.positions[q].open_orders == open_orders_in(
            after.orders@,
            after.positions[q].market_index,
        )
        &&& covers_resting_orders(after.orders@, after.positions[q])
    } by {
        let mq = after.positions[q].market_index;
        if q != p {
            assert(after.positions[q] == user.positions[q]);
            if p < q {
                assert(user.positions[p].market_index != user.positions[q].market_index);
            } else {
                assert(user.positions[q].market_index != user.positions[p].market_index);
            }
            lemma_open_orders_in_update(user.orders@, i, Order::empty(), mq);
            lemma_unfilled_in_update(user.orders@, i, Order::empty(), mq, PositionDirection::Long);
            lemma_unfilled_in_update(user.orders@, i, Order::empty(), mq, PositionDirection::Short);
            assert(covers_resting_orders(user.orders@, user.positions[q]));
        }
    }
}

} // verus!
