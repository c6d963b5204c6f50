use pump_fun::constants::REAL_SOL_THRESHOLD;
use pump_fun::error::PumpFunError;
use pump_fun::identity::{burn_identity, AccountId};
use pump_fun::main_state::MainState;
use pump_fun::pool::PoolState;
use pump_fun::trade::{buy, sell};

fn id(x: u64) -> AccountId {
    AccountId { w0: x, w1: 0, w2: 0, w3: 0 }
}

fn config(trading_fee: u64, max_buy_limit: u64) -> MainState {
    MainState {
        initialized: true,
        owner: id(1),
        fee_recipient: id(1),
        total_token_supply: 1_000_000_000_000_000,
        init_real_base_reserves: 800_000_000_000_000,
        init_virt_base_reserves: 200_000_000_000_000,
        init_virt_quote_reserves: 20_000_000_000,
        trading_fee,
        max_buy_limit,
    }
}

fn pool(real_base: u64, real_quote: u64, virt_quote: u64, complete: bool) -> PoolState {
    PoolState {
        owner: id(1),
        konst: 0,
        base_mint: id(2),
        virt_base_reserves: 0,
        real_base_reserves: real_base,
        quote_mint: id(3),
        virt_quote_reserves: virt_quote,
        real_quote_reserves: real_quote,
        complete,
    }
}

#[test]
fn buy_prices_fee_then_curve() {
    let ms = config(1_000, 1_000_000_000);
    let mut p = pool(1_000_000, 0, 1_000_000, false);
    let o = buy(&mut p, &ms, 100_000, &burn_identity(), &id(7), 42).unwrap();
    assert_eq!(o.fee, 1_000);
    assert_eq!(o.net_quote_amount, 99_000);
    assert_eq!(o.fee + o.net_quote_amount, 100_000);
    assert_eq!(o.base_out, 90_081);
    assert_eq!(p.real_base_reserves, 909_919);
    assert_eq!(p.real_quote_reserves, 99_000);
    assert_eq!(p.virt_quote_reserves, 1_000_000);
    assert!(!p.complete);
    assert_eq!(o.fee_split.to_fee_recipient, 1_000);
    assert_eq!(o.fee_split.to_referrer, 0);
    assert_eq!(o.fee_split.to_trader, 0);
    assert!(o.complete_event.is_none());
    assert_eq!(o.trade_event.user, id(7));
    assert_eq!(o.trade_event.base_mint, id(2));
    assert_eq!(o.trade_event.token_amount, 90_081);
    assert_eq!(o.trade_event.sol_amount, 100_000);
    assert_eq!(o.trade_event.base_reserves, 909_919);
    assert_eq!(o.trade_event.quote_reserves, 1_099_000);
    assert!(o.trade_event.is_buy);
    assert_eq!(o.trade_event.timestamp, 42);
}

#[test]
fn buy_with_referrer_splits_fee() {
    let ms = config(1_000, 1_000_000_000);
    let mut p = pool(1_000_000, 0, 1_000_000, false);
    let o = buy(&mut p, &ms, 100_100, &id(9), &id(7), 0).unwrap();
    assert_eq!(o.fee, 1_001);
    assert_eq!(o.fee_split.to_fee_recipient, 500);
    assert_eq!(o.fee_split.to_referrer, 500);
    assert_eq!(o.fee_split.to_trader, 1);
}

#[test]
fn buy_uninitialized_rejected() {
    let mut ms = config(1_000, 1_000_000_000);
    ms.initialized = false;
    let before = pool(1_000_000, 0, 1_000_000, false);
    let mut p = before;
    let r = buy(&mut p, &ms, 100, &burn_identity(), &id(7), 0);
    assert_eq!(r.unwrap_err(), PumpFunError::Uninitialized);
    assert_eq!(p, before);
}

#[test]
fn buy_over_cap_rejected() {
    let ms = config(1_000, 1_000_000_000);
    let before = pool(1_000_000, 0, 1_000_000, false);
    let mut p = before;
    let r = buy(&mut p, &ms, 1_000_000_001, &burn_identity(), &id(7), 0);
    assert_eq!(r.unwrap_err(), PumpFunError::MaxBuyLimit);
    assert_eq!(p, before);
}

#[test]
fn buy_on_complete_pool_rejected() {
    let ms = config(1_000, 1_000_000_000);
    let before = pool(1_000_000, 0, 1_000_000, true);
    let mut p = before;
    let r = buy(&mut p, &ms, 100, &burn_identity(), &id(7), 0);
    assert_eq!(r.unwrap_err(), PumpFunError::BondingCurveComplete);
    assert_eq!(p, before);
}

#[test]
fn buy_crossing_threshold_completes_pool() {
    let ms = config(1_000, 1_000_000_000);
    let mut p = pool(800_000_000_000_000, REAL_SOL_THRESHOLD - 1, 20_000_000_000, false);
    let o = buy(&mut p, &ms, 1_000, &burn_identity(), &id(7), 9).unwrap();
    assert_eq!(o.net_quote_amount, 990);
    assert_eq!(p.real_quote_reserves, REAL_SOL_THRESHOLD + 989);
    assert!(p.complete);
    let ce = o.complete_event.unwrap();
    assert_eq!(ce.user, id(7));
    assert_eq!(ce.base_mint, id(2));
    assert_eq!(ce.timestamp, 9);

    // The pool is now withdraw-only: both trade directions are refused.
    let r = buy(&mut p, &ms, 1_000, &burn_identity(), &id(7), 10);
    assert_eq!(r.unwrap_err(), PumpFunError::BondingCurveComplete);
    let r = sell(&mut p, &ms, 1_000, &burn_identity(), &id(7), 11);
    assert_eq!(r.unwrap_err(), PumpFunError::BondingCurveComplete);
}

#[test]
fn buy_below_threshold_stays_active() {
    let ms = config(1_000, 1_000_000_000);
    let mut p = pool(800_000_000_000_000, REAL_SOL_THRESHOLD - 1_000, 20_000_000_000, false);
    let o = buy(&mut p, &ms, 1_000, &burn_identity(), &id(7), 9).unwrap();
    assert_eq!(p.real_quote_reserves, REAL_SOL_THRESHOLD - 10);
    assert!(!p.complete);
    assert!(o.complete_event.is_none());
}

#[test]
fn sell_prices_curve_then_fee() {
    let ms = config(1_000, 1_000_000_000);
    let mut p = pool(909_091, 100_000, 1_000_000, false);
    let o = sell(&mut p, &ms, 90_909, &burn_identity(), &id(8), 5).unwrap();
    assert_eq!(o.gross_quote_out, 99_999);
    assert_eq!(o.fee, 999);
    assert_eq!(o.net_quote_out, 99_000);
    assert_eq!(o.fee + o.net_quote_out, o.gross_quote_out);
    assert_eq!(p.real_base_reserves, 1_000_000);
    assert_eq!(p.real_quote_reserves, 1);
    assert!(!p.complete);
    assert_eq!(o.trade_event.user, id(8));
    assert_eq!(o.trade_event.token_amount, 90_909);
    assert_eq!(o.trade_event.sol_amount, 99_000);
    assert_eq!(o.trade_event.base_reserves, 1_000_000);
    assert_eq!(o.trade_event.quote_reserves, 1_000_001);
    assert!(!o.trade_event.is_buy);
    assert_eq!(o.trade_event.timestamp, 5);
}

#[test]
fn sell_has_no_size_cap() {
    // A sell larger than the buy cap is still accepted.
    let ms = config(1_000, 100);
    let mut p = pool(1_000_000, 1_200_000, 1_000_000, false);
    let o = sell(&mut p, &ms, 1_000_000, &burn_identity(), &id(8), 0).unwrap();
    assert_eq!(o.gross_quote_out, 1_100_000);
}

#[test]
fn sell_uninitialized_rejected() {
    let mut ms = config(1_000, 1_000_000_000);
    ms.initialized = false;
    let before = pool(1_000_000, 100_000, 1_000_000, false);
    let mut p = before;
    let r = sell(&mut p, &ms, 100, &burn_identity(), &id(8), 0);
    assert_eq!(r.unwrap_err(), PumpFunError::Uninitialized);
    assert_eq!(p, before);
}

#[test]
fn sell_on_complete_pool_rejected() {
    let ms = config(1_000, 1_000_000_000);
    let before = pool(1_000_000, 100_000, 1_000_000, true);
    let mut p = before;
    let r = sell(&mut p, &ms, 100, &burn_identity(), &id(8), 0);
    assert_eq!(r.unwrap_err(), PumpFunError::BondingCurveComplete);
    assert_eq!(p, before);
}
