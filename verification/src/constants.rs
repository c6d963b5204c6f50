//! Protocol-level constants.

use vstd::prelude::*;

verus! {

/// Denominator unit of the trading-fee rate: a rate of `FEE_PER_DIV` is one
/// percent, so the effective fee is `amount * rate / (FEE_PER_DIV * 100)`.
pub const FEE_PER_DIV: u64 = 1000;

/// The full fee-rate denominator: a rate equal to this is a 100% fee.
pub const FEE_RATE_DENOM: u64 = 100 * FEE_PER_DIV;

/// Canonical base-asset issuance recorded at configuration time.
pub const TOTAL_SUPPLY: u64 = 1_000_000_000_000_000;

/// Virtual quote reserve seeded into every new pool (the price-floor anchor).
pub const VIRT_SOL_RESERVE: u64 = 20_000_000_000;

/// Real quote reserves at or above which a pool graduates: the buy that
/// carries `real_quote_reserves` across this line flips the pool to complete.
pub const REAL_SOL_THRESHOLD: u64 = 60_000_000_000;

/// Default trading-fee rate set at initialization (one percent).
pub const DEFAULT_TRADING_FEE: u64 = 1_000;

/// Default cap on the gross quote amount of a single buy.
pub const DEFAULT_MAX_BUY_LIMIT: u64 = 1_000_000_000;

} // verus!
