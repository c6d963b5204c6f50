//! Pool lifecycle: creation of a pool ledger and withdrawal of a completed
//! pool's reserves.

use vstd::prelude::*;
use vstd::arithmetic::mul::lemma_mul_upper_bound;
use crate::error::PumpFunError;
use crate::events::CreateEvent;
use crate::identity::{
    AccountId, native_asset, spec_native_asset, spec_withdraw_authority, withdraw_authority,
};
use crate::main_state::MainState;
use crate::pool::PoolState;

verus! {

/// The creator's declared deposits for a new pool.
#[derive(Clone, Copy, Debug, PartialEq, Eq, Structural)]
pub struct CreatePoolInput {
    /// Base deposit; must cover the fixed real base reserve, the rest is
    /// recorded as the virtual base reserve.
    pub base_amount: u64,
    /// Quote deposit; becomes the initial real quote reserve.
    pub quote_amount: u64,
}

/// Builds the ledger of a new pool from the global configuration and the
/// creator's deposits, in the active state.
///
/// Checks, first failure wins: the quote asset must be the native asset
/// (`UnknownToken`), the configuration must be initialized (`Uninitialized`),
/// and the base deposit must cover the fixed real base reserve
/// (`InsufficientFund`) — the virtual base reserve is the surplus of the
/// deposit over that constant, so a smaller deposit must be rejected before
/// the subtraction. That the creator actually holds the declared deposits is
/// the host custody service's check, made before it transfers them into the
/// pool's reserve accounts.
///
/// The record's `konst` field documents the constant product at creation; it
/// is never re-validated after a trade.
pub fn create_pool(
    main_state: &MainState,
    creator: &AccountId,
    base_mint: &AccountId,
    quote_mint: &AccountId,
    input: &CreatePoolInput,
    timestamp: i64,
) -> (r: Result<(PoolState, CreateEvent), PumpFunError>)
    requires
        (*quote_mint == spec_native_asset() && main_state.initialized && input.base_amount
            >= main_state.init_real_base_reserves) ==> main_state.init_virt_quote_reserves
            + input.quote_amount <= u64::MAX,
    ensures
        (r is Ok) <==> (*quote_mint == spec_native_asset() && main_state.initialized
            && input.base_amount >= main_state.init_real_base_reserves),
        r matches Err(e) ==> e == (if *quote_mint != spec_native_asset() {
            PumpFunError::UnknownToken
        } else if !main_state.initialized {
            PumpFunError::Uninitialized
        } else {
            PumpFunError::InsufficientFund
        }),
        r matches Ok(pool_and_event) ==> ({
            let pool = pool_and_event.0;
            let event = pool_and_event.1;
            &&& pool.owner == *creator
            &&& pool.base_mint == *base_mint
            &&& pool.quote_mint == *quote_mint
            &&& pool.real_base_reserves == main_state.init_real_base_reserves
            &&& pool.virt_base_reserves == input.base_amount - main_state.init_real_base_reserves
            &&& pool.real_quote_reserves == input.quote_amount
            &&& pool.virt_quote_reserves == main_state.init_virt_quote_reserves
            &&& pool.konst == (main_state.init_real_base_reserves as int) * (
            main_state.init_virt_quote_reserves + input.quote_amount)
            &&& !pool.complete
            &&& event.creator == *creator
            &&& event.base_mint == *base_mint
            &&& event.base_reserves == input.base_amount
            &&& event.quote_reserves == main_state.init_virt_quote_reserves + input.quote_amount
            &&& event.timestamp == timestamp
        }),
{
    let native = native_asset();
    if !(*quote_mint == native) {
        return Err(PumpFunError::UnknownToken);
    }
    if !main_state.initialized {
        return Err(PumpFunError::Uninitialized);
    }
    if input.base_amount < main_state.init_real_base_reserves {
        return Err(PumpFunError::InsufficientFund);
    }
    let real_base_reserves = main_state.init_real_base_reserves;
    let virt_base_reserves = input.base_amount - main_state.init_real_base_reserves;
    let real_quote_reserves = input.quote_amount;
    let virt_quote_reserves = main_state.init_virt_quote_reserves;
    let total_quote_reserves: u64 = virt_quote_reserves + real_quote_reserves;
    proof {
        lemma_mul_upper_bound(
            real_base_reserves as int,
            u64::MAX as int,
            total_quote_reserves as int,
            u64::MAX as int,
        );
    }
    let konst: u128 = (real_base_reserves as u128) * (total_quote_reserves as u128);
    let pool = PoolState {
        owner: *creator,
        konst,
        base_mint: *base_mint,
        virt_base_reserves,
        real_base_reserves,
        quote_mint: *quote_mint,
        virt_quote_reserves,
        real_quote_reserves,
        complete: false,
    };
    let event = CreateEvent {
        creator: *creator,
        base_mint: *base_mint,
        base_reserves: pool.real_base_reserves + pool.virt_base_reserves,
        quote_reserves: pool.virt_quote_reserves + pool.real_quote_reserves,
        timestamp,
    };
    Ok((pool, event))
}

/// What a withdrawal drains: everything the pool's reserve accounts actually
/// hold.
#[derive(Clone, Copy, Debug, PartialEq, Eq, Structural)]
pub struct WithdrawAmounts {
    /// Base amount to transfer to the authority: the real plus the virtual
    /// base reserves (the virtual part was deposited at creation and backed).
    pub base_amount: u64,
    /// Quote amount to transfer to the authority: the real quote reserves
    /// only. The virtual quote reserve is a pure accounting anchor with no
    /// backing balance and is never moved.
    pub quote_amount: u64,
}

/// Gates and sizes the withdrawal of a completed pool's reserves.
///
/// Checks, first failure wins: the caller must be the fixed protocol
/// withdraw authority (`Unauthorised`), the configuration must be
/// initialized (`Uninitialized`), and the pool must have graduated
/// (`BondingCurveIncomplete`).
///
/// The ledger record's numeric fields are not zeroed: a repeated withdrawal
/// computes the same amounts and must then fail at the host custody service's
/// transfer step, the drained reserve accounts no longer covering them.
pub fn withdraw(pool: &PoolState, main_state: &MainState, caller: &AccountId) -> (r: Result<
    WithdrawAmounts,
    PumpFunError,
>)
    requires
        (*caller == spec_withdraw_authority() && main_state.initialized && pool.complete)
            ==> pool.virt_base_reserves + pool.real_base_reserves <= u64::MAX,
    ensures
        (r is Ok) <==> (*caller == spec_withdraw_authority() && main_state.initialized
            && pool.complete),
        r matches Err(e) ==> e == (if *caller != spec_withdraw_authority() {
            PumpFunError::Unauthorised
        } else if !main_state.initialized {
            PumpFunError::Uninitialized
        } else {
            PumpFunError::BondingCurveIncomplete
        }),
        r matches Ok(w) ==> ({
            &&& w.base_amount == pool.virt_base_reserves + pool.real_base_reserves
            &&& w.quote_amount == pool.real_quote_reserves
        }),
{
    let authority = withdraw_authority();
    if !(*caller == authority) {
        return Err(PumpFunError::Unauthorised);
    }
    if !main_state.initialized {
        return Err(PumpFunError::Uninitialized);
    }
    if !pool.complete {
        return Err(PumpFunError::BondingCurveIncomplete);
    }
    Ok(
        WithdrawAmounts {
            base_amount: pool.virt_base_reserves + pool.real_base_reserves,
            quote_amount: pool.real_quote_reserves,
        },
    )
}

} // verus!
