//! Which oracle price, if any, an order is priced against.

use crate::error::ErrorCode;
use crate::order::Order;
use vstd::prelude::*;

verus! {

/// What the price feed said when it was read: the price, and whether the
/// reading passed the validity guard rails.
#[derive(Clone, Copy, Debug, PartialEq, Eq)]
pub struct OracleReading {
    pub price: i128,
    pub is_valid: bool,
}

/// The oracle price an order may be priced against.
///
/// A valid reading gives its price. Without a valid reading, an order that
/// does not price itself relative to the oracle goes on without one; an
/// order that does is refused: `InvalidOracle` where the reading is there
/// but not valid, `OracleNotFound` where there is none.
pub open spec fn valid_oracle_price(oracle: Option<OracleReading>, order: Order) -> Result<
    Option<i128>,
    ErrorCode,
> {
    match oracle {
        Some(reading) => if reading.is_valid {
            Ok(Some(reading.price))
        } else if order.oracle_price_offset != 0 {
            Err(ErrorCode::InvalidOracle)
        } else {
            Ok(None)
        },
        None => if order.oracle_price_offset != 0 {
            Err(ErrorCode::OracleNotFound)
        } else {
            Ok(None)
        },
    }
}

/// Resolves the oracle price to use for an order from the reading of the
/// price feed, if the caller supplied one.
pub fn get_valid_oracle_price(oracle: Option<OracleReading>, order: &Order) -> (r: Result<
    Option<i128>,
    ErrorCode,
>)
    ensures
        r == valid_oracle_price(oracle, *order),
{
    match oracle {
        Some(reading) => {
            if reading.is_valid {
                Ok(Some(reading.price))
            } else if order.has_oracle_price_offset() {
                Err(ErrorCode::InvalidOracle)
            } else {
                Ok(None)
            }
        },
        None => {
            if order.has_oracle_price_offset() {
                Err(ErrorCode::OracleNotFound)
            } else {
                Ok(None)
            }
        },
    }
}

} // verus!
