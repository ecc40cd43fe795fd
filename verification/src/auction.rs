//! The price path of an order's auction, and the check of a taker's auction
//! price against a maker's limit.

use crate::error::ErrorCode;
use crate::order::{Order, PositionDirection};
use vstd::prelude::*;

verus! {

/// The time an auction has run, capped at its duration.
pub open spec fn auction_time(ts: i64, now: i64, auction_duration: i64) -> int {
    if now - ts <= auction_duration {
        now - ts
    } else {
        auction_duration as int
    }
}

/// The price of an order's auction at time `now`.
///
/// The price starts at the order's auction start price and moves in a
/// straight line to its end price over `auction_duration`, where it stays:
/// upward for a long order, downward for a short one. The part of the way
/// covered is rounded down to a whole price unit. An auction without
/// duration is at its end price at once.
///
/// `MathError` where the elapsed time leaves `i64`, where the end price
/// lies on the wrong side of the start price, or where the product of price
/// span and time leaves `u128`; `CastingFailure` where the capped time is
/// negative.
pub open spec fn auction_price(order: Order, now: i64, auction_duration: i64) -> Result<
    u128,
    ErrorCode,
> {
    let elapsed = now - order.ts;
    let time = auction_time(order.ts, now, auction_duration);
    if elapsed < i64::MIN || elapsed > i64::MAX {
        Err(ErrorCode::MathError)
    } else if auction_duration == 0 {
        Ok(order.auction_end_price)
    } else if time < 0 {
        Err(ErrorCode::CastingFailure)
    } else {
        match order.direction {
            PositionDirection::Long => {
                let span = order.auction_end_price - order.auction_start_price;
                if span < 0 || span * time > u128::MAX {
                    Err(ErrorCode::MathError)
                } else {
                    Ok((order.auction_start_price + (span * time) / (auction_duration as int)) as u128)
                }
            },
            PositionDirection::Short => {
                let span = order.auction_start_price - order.auction_end_price;
                if span < 0 || span * time > u128::MAX {
                    Err(ErrorCode::MathError)
                } else {
                    Ok((order.auction_start_price - (span * time) / (auction_duration as int)) as u128)
                }
            },
        }
    }
}

/// The part of a price span covered after `time` of `duration` is at most
/// the span.
pub proof fn lemma_covered_span(span: int, time: int, duration: int)
    requires
        0 <= span,
        0 <= time <= duration,
        0 < duration,
    ensures
        0 <= (span * time) / duration <= span,
{
    assert(0 <= span * time <= span * duration) by (nonlinear_arith)
        requires
            0 <= span,
            0 <= time <= duration,
    ;
    vstd::arithmetic::div_mod::lemma_div_is_ordered(span * time, span * duration, duration);
    vstd::arithmetic::div_mod::lemma_div_multiples_vanish(span, duration);
    assert(span * duration == duration * span) by (nonlinear_arith);
    vstd::arithmetic::div_mod::lemma_div_pos_is_pos(span * time, duration);
}

/// Interpolates the price of an order's auction at time `now`.
pub fn calculate_auction_price(order: &Order, now: i64, auction_duration: i64) -> (r: Result<
    u128,
    ErrorCode,
>)
    ensures
        r == auction_price(*order, now, auction_duration),
{
    let elapsed = match now.checked_sub(order.ts) {
        Some(elapsed) => elapsed,
        None => { return Err(ErrorCode::MathError); },
    };
    if auction_duration == 0 {
        return Ok(order.auction_end_price);
    }
    let capped = if elapsed <= auction_duration {
        elapsed
    } else {
        auction_duration
    };
    if capped < 0 {
        return Err(ErrorCode::CastingFailure);
    }
    let time = capped as u128;
    let duration = auction_duration as u128;
    match order.direction {
        PositionDirection::Long => {
            let span = match order.auction_end_price.checked_sub(order.auction_start_price) {
                Some(span) => span,
                None => { return Err(ErrorCode::MathError); },
            };
            let product = match span.checked_mul(time) {
                Some(product) => product,
                None => { return Err(ErrorCode::MathError); },
            };
            proof {
                lemma_covered_span(span as int, time as int, duration as int);
            }
            Ok(order.auction_start_price + product / duration)
        },
        PositionDirection::Short => {
            let span = match order.auction_start_price.checked_sub(order.auction_end_price) {
                Some(span) => span,
                None => { return Err(ErrorCode::MathError); },
            };
            let product = match span.checked_mul(time) {
                Some(product) => product,
                None => { return Err(ErrorCode::MathError); },
            };
            proof {
                lemma_covered_span(span as int, time as int, duration as int);
            }
            Ok(order.auction_start_price - product / duration)
        },
    }
}

/// The order's auction runs the way of the order: upward from start to end
/// price for a long order, downward for a short one.
pub open spec fn auction_runs_with_direction(order: Order) -> bool {
    match order.direction {
        PositionDirection::Long => order.auction_start_price <= order.auction_end_price,
        PositionDirection::Short => order.auction_end_price <= order.auction_start_price,
    }
}

/// The price of an auction that runs the way of its order never leaves the
/// range between the start and the end price.
pub proof fn lemma_auction_price_between(order: Order, now: i64, auction_duration: i64)
    requires
        auction_runs_with_direction(order),
    ensures
        match auction_price(order, now, auction_duration) {
            Ok(price) => match order.direction {
                PositionDirection::Long => order.auction_start_price <= price
                    <= order.auction_end_price,
                PositionDirection::Short => order.auction_end_price <= price
                    <= order.auction_start_price,
            },
            Err(_) => true,
        },
{
    if auction_duration != 0 && auction_price(order, now, auction_duration) is Ok {
        let time = auction_time(order.ts, now, auction_duration);
        match order.direction {
            PositionDirection::Long => {
                lemma_covered_span(
                    order.auction_end_price - order.auction_start_price,
                    time,
                    auction_duration as int,
                );
            },
            PositionDirection::Short => {
                lemma_covered_span(
                    order.auction_start_price - order.auction_end_price,
                    time,
                    auction_duration as int,
                );
            },
        }
    }
}

/// Once its duration has run, an auction is at its end price.
pub proof fn lemma_auction_ends_at_end_price(order: Order, now: i64, auction_duration: i64)
    requires
        0 < auction_duration <= now - order.ts,
        auction_price(order, now, auction_duration) is Ok,
    ensures
        auction_price(order, now, auction_duration) == Ok::<u128, ErrorCode>(
            order.auction_end_price,
        ),
{
    let duration = auction_duration as int;
    match order.direction {
        PositionDirection::Long => {
            let span = order.auction_end_price - order.auction_start_price;
            vstd::arithmetic::div_mod::lemma_div_multiples_vanish(span, duration);
            assert(span * duration == duration * span) by (nonlinear_arith);
        },
        PositionDirection::Short => {
            let span = order.auction_start_price - order.auction_end_price;
            vstd::arithmetic::div_mod::lemma_div_multiples_vanish(span, duration);
            assert(span * duration == duration * span) by (nonlinear_arith);
        },
    }
}

/// Whether a price satisfies a resting maker order's limit: at or below it
/// for a maker that buys, at or above it for a maker that sells.
pub open spec fn auction_satisfies_maker(maker_order: Order, auction_price: u128) -> bool {
    match maker_order.direction {
        PositionDirection::Long => auction_price <= maker_order.price,
        PositionDirection::Short => auction_price >= maker_order.price,
    }
}

/// Checks a taker's auction price against a maker order's limit.
pub fn does_auction_satisfy_maker_order(maker_order: &Order, auction_price: u128) -> (r: bool)
    ensures
        r == auction_satisfies_maker(*maker_order, auction_price),
{
    match maker_order.direction {
        PositionDirection::Long => auction_price <= maker_order.price,
        PositionDirection::Short => auction_price >= maker_order.price,
    }
}

} // verus!
