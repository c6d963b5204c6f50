//! The global configuration: a process-wide singleton record holding
//! protocol defaults and authority. Created once, then overwritten (in full)
//! only by its current owner.

use vstd::prelude::*;
use crate::constants::{
    DEFAULT_MAX_BUY_LIMIT, DEFAULT_TRADING_FEE, TOTAL_SUPPLY, VIRT_SOL_RESERVE,
};
use crate::error::PumpFunError;
use crate::identity::AccountId;

verus! {

/// Protocol-level defaults and authority, read by every pool operation.
#[derive(Clone, Copy, Debug, PartialEq, Eq, Structural)]
pub struct MainState {
    /// Guards against double initialization; every pool operation requires it.
    pub initialized: bool,
    /// The only identity allowed to replace this record's fields.
    pub owner: AccountId,
    /// Default recipient of the protocol's share of trading fees.
    pub fee_recipient: AccountId,
    /// Canonical base-asset issuance unit.
    pub total_token_supply: u64,
    /// Portion of the supply deposited as tradeable reserve at pool creation.
    pub init_real_base_reserves: u64,
    /// Remainder of the supply, recorded but never transacted against.
    pub init_virt_base_reserves: u64,
    /// Virtual quote anchor seeded into every new pool.
    pub init_virt_quote_reserves: u64,
    /// Trading-fee rate; `FEE_PER_DIV` is one percent.
    pub trading_fee: u64,
    /// Maximum gross quote amount accepted per single buy call.
    pub max_buy_limit: u64,
}

/// The owner-supplied replacement fields for [`update_main_state`].
#[derive(Clone, Copy, Debug, PartialEq, Eq, Structural)]
pub struct UpdateMainStateInput {
    /// The new configuration owner.
    pub owner: AccountId,
    /// The new recipient of the protocol fee share.
    pub fee_recipient: AccountId,
    /// The new trading-fee rate.
    pub trading_fee: u64,
    /// The new per-buy cap.
    pub max_buy_limit: u64,
}

/// Initializes the global configuration with the protocol defaults, making
/// the caller both owner and fee recipient. Fails (leaving the record
/// untouched) if the record was already initialized: the configuration is
/// created exactly once.
pub fn init_main_state(state: &mut MainState, owner: &AccountId) -> (r: Result<
    (),
    PumpFunError,
>)
    ensures
        (r is Ok) <==> !old(state).initialized,
        r is Err ==> r == Result::<(), PumpFunError>::Err(PumpFunError::AlreadyInitialized)
            && *final(state) == *old(state),
        r is Ok ==> {
            &&& final(state).initialized
            &&& final(state).owner == *owner
            &&& final(state).fee_recipient == *owner
            &&& final(state).total_token_supply == TOTAL_SUPPLY
            &&& final(state).init_real_base_reserves == TOTAL_SUPPLY * 8 / 10
            &&& final(state).init_virt_base_reserves == TOTAL_SUPPLY - TOTAL_SUPPLY * 8 / 10
            &&& final(state).init_virt_quote_reserves == VIRT_SOL_RESERVE
            &&& final(state).trading_fee == DEFAULT_TRADING_FEE
            &&& final(state).max_buy_limit == DEFAULT_MAX_BUY_LIMIT
        },
{
    if state.initialized {
        return Err(PumpFunError::AlreadyInitialized);
    }
    state.initialized = true;
    state.owner = *owner;
    state.fee_recipient = *owner;
    state.total_token_supply = TOTAL_SUPPLY;
    // Deposit 80% of the supply as the tradeable reserve and keep the
    // remaining 20% as the virtual base reserve.
    state.init_real_base_reserves = state.total_token_supply * 8 / 10;
    state.init_virt_base_reserves = state.total_token_supply - state.init_real_base_reserves;
    state.init_virt_quote_reserves = VIRT_SOL_RESERVE;
    state.trading_fee = DEFAULT_TRADING_FEE;
    state.max_buy_limit = DEFAULT_MAX_BUY_LIMIT;
    Ok(())
}

/// Replaces the owner-settable configuration fields in full (no merge).
/// Only the current owner may call this, and only after initialization;
/// a refused call leaves the record untouched.
pub fn update_main_state(
    state: &mut MainState,
    caller: &AccountId,
    input: &UpdateMainStateInput,
) -> (r: Result<(), PumpFunError>)
    ensures
        (r is Ok) <==> (*caller == old(state).owner && old(state).initialized),
        r matches Err(e) ==> {
            &&& *final(state) == *old(state)
            &&& e == (if *caller != old(state).owner {
                PumpFunError::Unauthorised
            } else {
                PumpFunError::Uninitialized
            })
        },
        r is Ok ==> {
            &&& final(state).owner == input.owner
            &&& final(state).fee_recipient == input.fee_recipient
            &&& final(state).trading_fee == input.trading_fee
            &&& final(state).max_buy_limit == input.max_buy_limit
            &&& final(state).initialized == old(state).initialized
            &&& final(state).total_token_supply == old(state).total_token_supply
            &&& final(state).init_real_base_reserves == old(state).init_real_base_reserves
            &&& final(state).init_virt_base_reserves == old(state).init_virt_base_reserves
            &&& final(state).init_virt_quote_reserves == old(state).init_virt_quote_reserves
        },
{
    if !(*caller == state.owner) {
        return Err(PumpFunError::Unauthorised);
    }
    if !state.initialized {
        return Err(PumpFunError::Uninitialized);
    }
    state.owner = input.owner;
    state.fee_recipient = input.fee_recipient;
    state.trading_fee = input.trading_fee;
    state.max_buy_limit = input.max_buy_limit;
    Ok(())
}

} // verus!
