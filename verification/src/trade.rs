//! The trade engine: one buy or one sell against a pool.
//!
//! A buy takes its fee on the input side (gross quote paid in), a sell on the
//! output side (gross quote paid out); this asymmetry is a deliberate curve
//! design choice. Each call validates its preconditions, prices the swap,
//! splits the fee, mutates the pool and reports every transfer the host
//! ledger must then perform; a refused call reports its error kind and leaves
//! the pool untouched.

use vstd::prelude::*;
use vstd::arithmetic::div_mod::{
    lemma_div_pos_is_pos, lemma_fundamental_div_mod, lemma_mod_bound, lemma_multiply_divide_le,
};
use vstd::arithmetic::mul::{
    lemma_mul_inequality, lemma_mul_is_commutative, lemma_mul_upper_bound,
};
use crate::constants::{FEE_RATE_DENOM, REAL_SOL_THRESHOLD};
use crate::error::PumpFunError;
use crate::events::{CompleteEvent, TradeEvent};
use crate::identity::{AccountId, spec_burn_identity, burn_identity};
use crate::main_state::MainState;
use crate::pool::{PoolState, spec_output_amount};

verus! {

/// The trading fee on `amount` at rate `trading_fee`:
/// `floor(amount * trading_fee / FEE_RATE_DENOM)`, so a rate of
/// `FEE_PER_DIV` (1000) is one percent.
pub open spec fn spec_trading_fee(trading_fee: int, amount: int) -> int {
    (amount * trading_fee) / (FEE_RATE_DENOM as int)
}

/// At any rate of at most 100%, the fee never exceeds the amount it is
/// charged on.
pub proof fn lemma_trading_fee_le_amount(trading_fee: int, amount: int)
    requires
        0 <= trading_fee <= FEE_RATE_DENOM,
        0 <= amount,
    ensures
        0 <= spec_trading_fee(trading_fee, amount) <= amount,
{
    lemma_div_pos_is_pos(amount * trading_fee, FEE_RATE_DENOM as int);
    lemma_mul_inequality(trading_fee, FEE_RATE_DENOM as int, amount);
    lemma_mul_is_commutative(amount, trading_fee);
    lemma_mul_is_commutative(FEE_RATE_DENOM as int, amount);
    lemma_multiply_divide_le(amount * trading_fee, FEE_RATE_DENOM as int, amount);
}

/// The trading fee on `amount` at rate `trading_fee`, rounded down, computed
/// in 128-bit intermediates so the 64-bit factors cannot overflow.
pub fn calculate_trading_fee(trading_fee: u64, amount: u64) -> (fee: u64)
    requires
        spec_trading_fee(trading_fee as int, amount as int) <= u64::MAX,
    ensures
        fee == spec_trading_fee(trading_fee as int, amount as int),
{
    proof {
        lemma_mul_upper_bound(amount as int, u64::MAX as int, trading_fee as int, u64::MAX as int);
        lemma_div_pos_is_pos(amount as int * trading_fee as int, FEE_RATE_DENOM as int);
    }
    let fee: u128 = (amount as u128) * (trading_fee as u128) / (FEE_RATE_DENOM as u128);
    fee as u64
}

/// Where one trade's fee goes. If the referrer is the designated burn
/// identity the whole fee goes to the protocol fee recipient; otherwise fee
/// recipient and referrer get half each, rounded down, and the odd unit (if
/// any) stays with the trader.
pub open spec fn spec_fee_to_recipient(fee: int, referrer_is_burn: bool) -> int {
    if referrer_is_burn {
        fee
    } else {
        fee / 2
    }
}

/// The referrer's share of one trade's fee (see [`spec_fee_to_recipient`]).
pub open spec fn spec_fee_to_referrer(fee: int, referrer_is_burn: bool) -> int {
    if referrer_is_burn {
        0
    } else {
        fee / 2
    }
}

/// The rounding residue of one trade's fee, left with the trader.
pub open spec fn spec_fee_residue(fee: int, referrer_is_burn: bool) -> int {
    fee - spec_fee_to_recipient(fee, referrer_is_burn) - spec_fee_to_referrer(
        fee,
        referrer_is_burn,
    )
}

/// How one trade's fee is routed by the host ledger.
#[derive(Clone, Copy, Debug, PartialEq, Eq, Structural)]
pub struct FeeSplit {
    /// Quote amount transferred to the protocol fee recipient.
    pub to_fee_recipient: u64,
    /// Quote amount transferred to the referrer.
    pub to_referrer: u64,
    /// Rounding residue that stays with the trader (returned when the
    /// trader's temporary quote holding is unwrapped).
    pub to_trader: u64,
}

/// Splits a trade's fee between the protocol fee recipient and the referrer,
/// leaving any odd unit with the trader.
pub fn split_trading_fee(fee: u64, referrer: &AccountId) -> (r: FeeSplit)
    ensures
        r.to_fee_recipient == spec_fee_to_recipient(fee as int, *referrer == spec_burn_identity()),
        r.to_referrer == spec_fee_to_referrer(fee as int, *referrer == spec_burn_identity()),
        r.to_trader == spec_fee_residue(fee as int, *referrer == spec_burn_identity()),
{
    let burn = burn_identity();
    if *referrer == burn {
        FeeSplit { to_fee_recipient: fee, to_referrer: 0, to_trader: 0 }
    } else {
        let half_fee: u64 = fee / 2;
        proof {
            lemma_fundamental_div_mod(fee as int, 2);
            lemma_mod_bound(fee as int, 2);
        }
        FeeSplit {
            to_fee_recipient: half_fee,
            to_referrer: half_fee,
            to_trader: fee - half_fee - half_fee,
        }
    }
}

/// Fee conservation: the fee and the net amount partition the gross amount
/// exactly, the routed fee shares and the residue partition the fee exactly,
/// and the only acceptable rounding residue is 0 or 1 unit, which stays with
/// the trader (it is 0 whenever the whole fee goes to the fee recipient).
pub proof fn lemma_fee_conservation(trading_fee: int, gross_amount: int, referrer_is_burn: bool)
    requires
        0 <= trading_fee <= FEE_RATE_DENOM,
        0 <= gross_amount,
    ensures
        ({
            let fee = spec_trading_fee(trading_fee, gross_amount);
            &&& fee + (gross_amount - fee) == gross_amount
            &&& 0 <= fee <= gross_amount
            &&& spec_fee_to_recipient(fee, referrer_is_burn) + spec_fee_to_referrer(
                fee,
                referrer_is_burn,
            ) + spec_fee_residue(fee, referrer_is_burn) == fee
            &&& 0 <= spec_fee_residue(fee, referrer_is_burn) <= 1
            &&& (referrer_is_burn ==> spec_fee_residue(fee, referrer_is_burn) == 0)
        }),
{
    let fee = spec_trading_fee(trading_fee, gross_amount);
    lemma_trading_fee_le_amount(trading_fee, gross_amount);
    lemma_fundamental_div_mod(fee, 2);
    lemma_mod_bound(fee, 2);
}

/// What one buy settles to: the amounts the host ledger must move and the
/// records it must publish.
#[derive(Clone, Copy, Debug, PartialEq, Eq, Structural)]
pub struct BuyOutcome {
    /// The fee taken from the gross quote amount.
    pub fee: u64,
    /// The net quote amount transferred into the pool's quote reserve.
    pub net_quote_amount: u64,
    /// The base amount transferred from the pool's base reserve to the buyer.
    pub base_out: u64,
    /// Where the fee goes.
    pub fee_split: FeeSplit,
    /// The trade record to publish.
    pub trade_event: TradeEvent,
    /// The completion record to publish, if this buy graduated the pool.
    pub complete_event: Option<CompleteEvent>,
}

/// Executes one buy of `amount` gross quote against the pool.
///
/// Preconditions are checked in order, first failure wins: the configuration
/// must be initialized (`Uninitialized`), the gross amount must not exceed
/// the per-call cap (`MaxBuyLimit`), and the pool must still be active
/// (`BondingCurveComplete`). A refused buy leaves the pool untouched.
///
/// The fee is taken on the input side; the net amount is priced through the
/// curve; the completion check runs strictly after the trade mutation, so
/// the buy that crosses the threshold is honored at the pre-completion
/// price. The completion flag is monotone: it is never reset.
pub fn buy(
    pool: &mut PoolState,
    main_state: &MainState,
    amount: u64,
    referrer: &AccountId,
    buyer: &AccountId,
    timestamp: i64,
) -> (r: Result<BuyOutcome, PumpFunError>)
    requires
        (main_state.initialized && amount <= main_state.max_buy_limit && !old(pool).complete)
            ==> ({
            let fee = spec_trading_fee(main_state.trading_fee as int, amount as int);
            &&& fee <= amount
            &&& old(pool).spec_total_quote_reserves() + (amount - fee) <= u64::MAX
            &&& old(pool).spec_total_quote_reserves() + (amount - fee) > 0
            &&& old(pool).real_base_reserves + old(pool).virt_base_reserves <= u64::MAX
        }),
    ensures
        (r is Ok) <==> (main_state.initialized && amount <= main_state.max_buy_limit && !old(pool).complete),
        r matches Err(e) ==> ({
            &&& *final(pool) == *old(pool)
            &&& e == (if !main_state.initialized {
                PumpFunError::Uninitialized
            } else if amount > main_state.max_buy_limit {
                PumpFunError::MaxBuyLimit
            } else {
                PumpFunError::BondingCurveComplete
            })
        }),
        r matches Ok(o) ==> ({
            let fee = spec_trading_fee(main_state.trading_fee as int, amount as int);
            let net = amount - fee;
            let base_out = spec_output_amount(
                net,
                old(pool).spec_total_quote_reserves(),
                old(pool).real_base_reserves as int,
            );
            let referrer_is_burn = *referrer == spec_burn_identity();
            &&& o.fee == fee
            &&& o.net_quote_amount == net
            &&& o.fee + o.net_quote_amount == amount
            &&& o.base_out == base_out
            &&& final(pool).real_base_reserves == old(pool).real_base_reserves - base_out
            &&& final(pool).real_quote_reserves == old(pool).real_quote_reserves + net
            &&& final(pool).virt_base_reserves == old(pool).virt_base_reserves
            &&& final(pool).virt_quote_reserves == old(pool).virt_quote_reserves
            &&& final(pool).owner == old(pool).owner
            &&& final(pool).base_mint == old(pool).base_mint
            &&& final(pool).quote_mint == old(pool).quote_mint
            &&& final(pool).konst == old(pool).konst
            &&& final(pool).complete == (final(pool).real_quote_reserves >= REAL_SOL_THRESHOLD)
            &&& o.fee_split.to_fee_recipient == spec_fee_to_recipient(fee, referrer_is_burn)
            &&& o.fee_split.to_referrer == spec_fee_to_referrer(fee, referrer_is_burn)
            &&& o.fee_split.to_trader == spec_fee_residue(fee, referrer_is_burn)
            &&& o.trade_event.user == *buyer
            &&& o.trade_event.base_mint == old(pool).base_mint
            &&& o.trade_event.token_amount == base_out
            &&& o.trade_event.sol_amount == amount
            &&& o.trade_event.base_reserves == final(pool).real_base_reserves + final(pool).virt_base_reserves
            &&& o.trade_event.quote_reserves == final(pool).virt_quote_reserves + final(pool).real_quote_reserves
            &&& o.trade_event.is_buy == true
            &&& o.trade_event.timestamp == timestamp
            &&& (final(pool).complete ==> (o.complete_event matches Some(ce) && ce.user == *buyer
                && ce.base_mint == old(pool).base_mint && ce.timestamp == timestamp))
            &&& (!final(pool).complete ==> o.complete_event is None)
        }),
        old(pool).complete ==> final(pool).complete,
{
    if !main_state.initialized {
        return Err(PumpFunError::Uninitialized);
    }
    if amount > main_state.max_buy_limit {
        return Err(PumpFunError::MaxBuyLimit);
    }
    if pool.complete {
        return Err(PumpFunError::BondingCurveComplete);
    }
    let fee = calculate_trading_fee(main_state.trading_fee, amount);
    let net_quote_amount = amount - fee;
    let base_out = pool.compute_receivable_amount_on_buy(net_quote_amount);
    let fee_split = split_trading_fee(fee, referrer);
    let base_reserves = pool.real_base_reserves + pool.virt_base_reserves;
    let quote_reserves = pool.virt_quote_reserves + pool.real_quote_reserves;
    let trade_event = TradeEvent {
        user: *buyer,
        base_mint: pool.base_mint,
        token_amount: base_out,
        sol_amount: amount,
        base_reserves,
        quote_reserves,
        is_buy: true,
        timestamp,
    };
    let complete_event: Option<CompleteEvent> = if pool.real_quote_reserves
        >= REAL_SOL_THRESHOLD {
        pool.complete = true;
        Some(CompleteEvent { user: *buyer, base_mint: pool.base_mint, timestamp })
    } else {
        None
    };
    Ok(BuyOutcome { fee, net_quote_amount, base_out, fee_split, trade_event, complete_event })
}

/// What one sell settles to: the amounts the host ledger must move and the
/// record it must publish.
#[derive(Clone, Copy, Debug, PartialEq, Eq, Structural)]
pub struct SellOutcome {
    /// The gross quote amount the curve pays for the base paid in.
    pub gross_quote_out: u64,
    /// The fee taken from the gross quote payout.
    pub fee: u64,
    /// The net quote amount transferred from the pool to the seller.
    pub net_quote_out: u64,
    /// Where the fee goes.
    pub fee_split: FeeSplit,
    /// The trade record to publish.
    pub trade_event: TradeEvent,
}

/// Executes one sell of `amount` base against the pool.
///
/// Preconditions, first failure wins: the configuration must be initialized
/// (`Uninitialized`) and the pool must still be active
/// (`BondingCurveComplete`). There is no per-call cap on sells, and a sell
/// never completes the pool. A refused sell leaves the pool untouched.
///
/// The fee is taken on the output side: the base paid in is priced through
/// the curve and the fee comes out of the gross quote payout.
pub fn sell(
    pool: &mut PoolState,
    main_state: &MainState,
    amount: u64,
    referrer: &AccountId,
    seller: &AccountId,
    timestamp: i64,
) -> (r: Result<SellOutcome, PumpFunError>)
    requires
        (main_state.initialized && !old(pool).complete) ==> ({
            let gross = spec_output_amount(
                amount as int,
                old(pool).real_base_reserves as int,
                old(pool).spec_total_quote_reserves(),
            );
            &&& old(pool).spec_total_quote_reserves() <= u64::MAX
            &&& old(pool).real_base_reserves + amount > 0
            &&& old(pool).real_base_reserves + amount + old(pool).virt_base_reserves <= u64::MAX
            &&& gross <= old(pool).real_quote_reserves
            &&& spec_trading_fee(main_state.trading_fee as int, gross) <= gross
        }),
    ensures
        (r is Ok) <==> (main_state.initialized && !old(pool).complete),
        r matches Err(e) ==> ({
            &&& *final(pool) == *old(pool)
            &&& e == (if !main_state.initialized {
                PumpFunError::Uninitialized
            } else {
                PumpFunError::BondingCurveComplete
            })
        }),
        r matches Ok(o) ==> ({
            let gross = spec_output_amount(
                amount as int,
                old(pool).real_base_reserves as int,
                old(pool).spec_total_quote_reserves(),
            );
            let fee = spec_trading_fee(main_state.trading_fee as int, gross);
            let net = gross - fee;
            let referrer_is_burn = *referrer == spec_burn_identity();
            &&& o.gross_quote_out == gross
            &&& o.fee == fee
            &&& o.net_quote_out == net
            &&& o.fee + o.net_quote_out == o.gross_quote_out
            &&& final(pool).real_base_reserves == old(pool).real_base_reserves + amount
            &&& final(pool).real_quote_reserves == old(pool).real_quote_reserves - gross
            &&& final(pool).virt_base_reserves == old(pool).virt_base_reserves
            &&& final(pool).virt_quote_reserves == old(pool).virt_quote_reserves
            &&& final(pool).owner == old(pool).owner
            &&& final(pool).base_mint == old(pool).base_mint
            &&& final(pool).quote_mint == old(pool).quote_mint
            &&& final(pool).konst == old(pool).konst
            &&& final(pool).complete == old(pool).complete
            &&& o.fee_split.to_fee_recipient == spec_fee_to_recipient(fee, referrer_is_burn)
            &&& o.fee_split.to_referrer == spec_fee_to_referrer(fee, referrer_is_burn)
            &&& o.fee_split.to_trader == spec_fee_residue(fee, referrer_is_burn)
            &&& o.trade_event.user == *seller
            &&& o.trade_event.base_mint == old(pool).base_mint
            &&& o.trade_event.token_amount == amount
            &&& o.trade_event.sol_amount == net
            &&& o.trade_event.base_reserves == final(pool).real_base_reserves + final(pool).virt_base_reserves
            &&& o.trade_event.quote_reserves == final(pool).virt_quote_reserves + final(pool).real_quote_reserves
            &&& o.trade_event.is_buy == false
            &&& o.trade_event.timestamp == timestamp
        }),
        old(pool).complete ==> final(pool).complete,
{
    if !main_state.initialized {
        return Err(PumpFunError::Uninitialized);
    }
    if pool.complete {
        return Err(PumpFunError::BondingCurveComplete);
    }
    let gross_quote_out = pool.compute_receivable_amount_on_sell(amount);
    let fee = calculate_trading_fee(main_state.trading_fee, gross_quote_out);
    let net_quote_out = gross_quote_out - fee;
    let fee_split = split_trading_fee(fee, referrer);
    let base_reserves = pool.real_base_reserves + pool.virt_base_reserves;
    let quote_reserves = pool.virt_quote_reserves + pool.real_quote_reserves;
    let trade_event = TradeEvent {
        user: *seller,
        base_mint: pool.base_mint,
        token_amount: amount,
        sol_amount: net_quote_out,
        base_reserves,
        quote_reserves,
        is_buy: false,
        timestamp,
    };
    Ok(SellOutcome { gross_quote_out, fee, net_quote_out, fee_split, trade_event })
}

} // verus!
