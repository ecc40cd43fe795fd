//! The order engine of a perpetual futures exchange: placing, cancelling and
//! filling the orders of a trader against a market's price curve.
//!
//! The engine decides and keeps the books; it holds no account and reads no
//! price itself. What it needs to know of the rest of the exchange (what the
//! price curve gives for a swap, whether the trader has the margin, what the
//! fee schedule charges, what the oracle says) is handed to it as plain
//! values. Where the question depends on what the engine has worked out so
//! far, the entry point returns the question instead of a result, and is
//! called again with the answer: [`placement::place_order`],
//! [`cancellation::cancel_order`] and [`fulfillment::fill_order`] are made to
//! be called in such a loop.
//!
//! Every entry point is all or nothing: the accounts handed in change only
//! together with a final result, never on an error and never with a question.
//!
//! Each entry point has a `spec` function of its own that says what it comes
//! to for every input, and its contract is that it does exactly that.
//! [`user::User::wf`] says what holds of every account that the engine has
//! worked on.

pub mod auction;
pub mod cancellation;
pub mod error;
pub mod events;
pub mod execution;
pub mod fulfillment;
pub mod market;
pub mod math;
pub mod oracle;
pub mod order;
pub mod placement;
pub mod position;
pub mod scan;
pub mod settlement;
pub mod user;
