//! The structured records an operation hands back for the host to publish on
//! its append-only event stream.

use vstd::prelude::*;
use crate::identity::AccountId;

verus! {

/// Emitted after every executed buy or sell.
#[derive(Clone, Copy, Debug, PartialEq, Eq, Structural)]
pub struct TradeEvent {
    /// The trader.
    pub user: AccountId,
    /// The pool's base asset.
    pub base_mint: AccountId,
    /// Base amount moved: paid out on a buy, paid in on a sell.
    pub token_amount: u64,
    /// Quote amount: the gross amount paid in on a buy, the net amount paid
    /// out on a sell.
    pub sol_amount: u64,
    /// Total base reserves (real plus virtual) after the trade.
    pub base_reserves: u64,
    /// Total quote reserves (virtual plus real) after the trade.
    pub quote_reserves: u64,
    /// True for a buy, false for a sell.
    pub is_buy: bool,
    /// The host clock reading supplied by the caller.
    pub timestamp: i64,
}

/// Emitted once, by the buy that carries the pool across the graduation
/// threshold.
#[derive(Clone, Copy, Debug, PartialEq, Eq, Structural)]
pub struct CompleteEvent {
    /// The buyer whose trade completed the pool.
    pub user: AccountId,
    /// The pool's base asset.
    pub base_mint: AccountId,
    /// The host clock reading supplied by the caller.
    pub timestamp: i64,
}

/// Emitted when a pool is created.
#[derive(Clone, Copy, Debug, PartialEq, Eq, Structural)]
pub struct CreateEvent {
    /// The pool's creator.
    pub creator: AccountId,
    /// The pool's base asset.
    pub base_mint: AccountId,
    /// Total base reserves (real plus virtual) at creation.
    pub base_reserves: u64,
    /// Total quote reserves (virtual plus real) at creation.
    pub quote_reserves: u64,
    /// The host clock reading supplied by the caller.
    pub timestamp: i64,
}

} // verus!
