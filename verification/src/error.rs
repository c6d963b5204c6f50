//! The error kinds surfaced by every pool operation.

use vstd::prelude::*;

verus! {

/// Why a pool operation was refused. Every precondition violation aborts the
/// whole call with one of these kinds and no state change.
#[derive(Clone, Copy, Debug, PartialEq, Eq, Structural)]
pub enum PumpFunError {
    /// An operation needed the global configuration before `init` has run.
    Uninitialized,
    /// `init` was called on an already-initialized global configuration.
    AlreadyInitialized,
    /// The caller is not the owner or authority the call requires.
    Unauthorised,
    /// The creator's declared base deposit is below the fixed real reserve.
    InsufficientFund,
    /// The quote asset supplied at pool creation is not the native asset.
    UnknownToken,
    /// A withdrawal was attempted on a pool that is still active.
    BondingCurveIncomplete,
    /// A buy or sell was attempted on a pool that is already complete.
    BondingCurveComplete,
    /// The gross buy amount exceeds the configured per-call cap.
    MaxBuyLimit,
}

} // verus!
