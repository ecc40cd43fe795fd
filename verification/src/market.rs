//! What the engine reads and writes of a market.

use crate::error::ErrorCode;
use crate::order::Pubkey;
use vstd::prelude::*;

verus! {

/// The part of a market's price curve state that the order engine reads
/// and writes.
#[derive(Clone, Copy, Debug, PartialEq, Eq)]
pub struct Amm {
    pub oracle: Pubkey,
    /// The smallest tradable increment of base asset.
    pub base_asset_amount_step_size: u128,
    pub total_fee: i128,
    pub total_fee_minus_distributions: i128,
    pub net_revenue_since_last_funding: i64,
    /// The slot in which the curve was last refreshed.
    pub last_update_slot: u64,
    /// Zero where curve updates are switched off for the market.
    pub curve_update_intensity: u8,
    pub last_oracle_mark_spread_pct: i128,
}

#[derive(Clone, Copy, Debug, PartialEq, Eq)]
pub struct Market {
    pub market_index: u64,
    pub next_trade_record_id: u64,
    pub amm: Amm,
}

impl Market {
    /// Whether orders may be filled against the curve in `slot`: the curve
    /// was refreshed in that slot, or the market does not update its curve.
    pub open spec fn spec_is_fresh_in(&self, slot: u64) -> bool {
        slot == self.amm.last_update_slot || self.amm.curve_update_intensity == 0
    }

    #[verifier::when_used_as_spec(spec_is_fresh_in)]
    pub fn is_fresh_in(&self, slot: u64) -> (r: bool)
        ensures
            r == self.spec_is_fresh_in(slot),
    {
        slot == self.amm.last_update_slot || self.amm.curve_update_intensity == 0
    }

    /// The market after `fee_to_market` was credited to its fee pool, its
    /// running fee total and its revenue since the last funding.
    /// `MathError` where one of the three counters cannot hold the sum.
    pub open spec fn with_fee_collected(self, fee_to_market: i128) -> Result<Market, ErrorCode> {
        let total_fee = self.amm.total_fee + fee_to_market;
        let total_fee_minus_distributions = self.amm.total_fee_minus_distributions + fee_to_market;
        let net_revenue = self.amm.net_revenue_since_last_funding + fee_to_market;
        if total_fee < i128::MIN || total_fee > i128::MAX || total_fee_minus_distributions
            < i128::MIN || total_fee_minus_distributions > i128::MAX || fee_to_market < i64::MIN
            || fee_to_market > i64::MAX || net_revenue < i64::MIN || net_revenue > i64::MAX {
            Err(ErrorCode::MathError)
        } else {
            Ok(
                Market {
                    amm: Amm {
                        total_fee: total_fee as i128,
                        total_fee_minus_distributions: total_fee_minus_distributions as i128,
                        net_revenue_since_last_funding: net_revenue as i64,
                        ..self.amm
                    },
                    ..self
                },
            )
        }
    }

    /// Credits a fee to the market. On an error the market is unchanged.
    pub fn collect_fee(&mut self, fee_to_market: i128) -> (r: Result<(), ErrorCode>)
        ensures
            match old(self).with_fee_collected(fee_to_market) {
                Ok(after) => r is Ok && *final(self) == after,
                Err(e) => r == Err::<(), ErrorCode>(e) && *final(self) == *old(self),
            },
    {
        let total_fee = match self.amm.total_fee.checked_add(fee_to_market) {
            Some(sum) => sum,
            None => { return Err(ErrorCode::MathError); },
        };
        let total_fee_minus_distributions = match self.amm.total_fee_minus_distributions.checked_add(
            fee_to_market,
        ) {
            Some(sum) => sum,
            None => { return Err(ErrorCode::MathError); },
        };
        if fee_to_market < -0x8000_0000_0000_0000i128 || fee_to_market > 0x7fff_ffff_ffff_ffffi128 {
            return Err(ErrorCode::MathError);
        }
        let net_revenue = match self.amm.net_revenue_since_last_funding.checked_add(
            fee_to_market as i64,
        ) {
            Some(sum) => sum,
            None => { return Err(ErrorCode::MathError); },
        };
        self.amm.total_fee = total_fee;
        self.amm.total_fee_minus_distributions = total_fee_minus_distributions;
        self.amm.net_revenue_since_last_funding = net_revenue;
        Ok(())
    }

    /// The market after one trade record id was handed out.
    pub open spec fn with_trade_recorded(self) -> Result<Market, ErrorCode> {
        if self.next_trade_record_id == u64::MAX {
            Err(ErrorCode::MathError)
        } else {
            Ok(Market { next_trade_record_id: (self.next_trade_record_id + 1) as u64, ..self })
        }
    }

    /// Hands out the id of the next trade record and moves the counter on
    /// by one. `MathError`, with the market unchanged, where the counter is
    /// at its end.
    pub fn take_trade_record_id(&mut self) -> (r: Result<u64, ErrorCode>)
        ensures
            match old(self).with_trade_recorded() {
                Ok(after) => {
                    &&& r == Ok::<u64, ErrorCode>(old(self).next_trade_record_id)
                    &&& *final(self) == after
                },
                Err(e) => r == Err::<u64, ErrorCode>(e) && *final(self) == *old(self),
            },
    {
        let id = self.next_trade_record_id;
        match id.checked_add(1) {
            Some(next) => {
                self.next_trade_record_id = next;
                Ok(id)
            },
            None => Err(ErrorCode::MathError),
        }
    }
}

} // verus!
