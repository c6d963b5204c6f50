use pump_fun::error::PumpFunError;
use pump_fun::identity::AccountId;
use pump_fun::main_state::{init_main_state, update_main_state, MainState, UpdateMainStateInput};

fn id(x: u64) -> AccountId {
    AccountId { w0: x, w1: 0, w2: 0, w3: 0 }
}

fn blank_state() -> MainState {
    MainState {
        initialized: false,
        owner: id(0),
        fee_recipient: id(0),
        total_token_supply: 0,
        init_real_base_reserves: 0,
        init_virt_base_reserves: 0,
        init_virt_quote_reserves: 0,
        trading_fee: 0,
        max_buy_limit: 0,
    }
}

#[test]
fn init_sets_protocol_defaults() {
    let mut s = blank_state();
    init_main_state(&mut s, &id(5)).unwrap();
    assert!(s.initialized);
    assert_eq!(s.owner, id(5));
    assert_eq!(s.fee_recipient, id(5));
    assert_eq!(s.total_token_supply, 1_000_000_000_000_000);
    // 80% of the supply is deposited as tradeable reserve, 20% stays virtual.
    assert_eq!(s.init_real_base_reserves, 800_000_000_000_000);
    assert_eq!(s.init_virt_base_reserves, 200_000_000_000_000);
    assert_eq!(s.init_virt_quote_reserves, 20_000_000_000);
    assert_eq!(s.trading_fee, 1_000);
    assert_eq!(s.max_buy_limit, 1_000_000_000);
}

#[test]
fn init_twice_rejected() {
    let mut s = blank_state();
    init_main_state(&mut s, &id(5)).unwrap();
    let before = s;
    let r = init_main_state(&mut s, &id(6));
    assert_eq!(r.unwrap_err(), PumpFunError::AlreadyInitialized);
    assert_eq!(s, before);
}

#[test]
fn owner_replaces_settable_fields() {
    let mut s = blank_state();
    init_main_state(&mut s, &id(5)).unwrap();
    let input = UpdateMainStateInput {
        owner: id(6),
        fee_recipient: id(7),
        trading_fee: 2_500,
        max_buy_limit: 123,
    };
    update_main_state(&mut s, &id(5), &input).unwrap();
    assert_eq!(s.owner, id(6));
    assert_eq!(s.fee_recipient, id(7));
    assert_eq!(s.trading_fee, 2_500);
    assert_eq!(s.max_buy_limit, 123);
    // Reserve defaults are not owner-settable.
    assert_eq!(s.total_token_supply, 1_000_000_000_000_000);
    assert_eq!(s.init_real_base_reserves, 800_000_000_000_000);

    // The old owner lost its authority with the update.
    let r = update_main_state(&mut s, &id(5), &input);
    assert_eq!(r.unwrap_err(), PumpFunError::Unauthorised);
}

#[test]
fn stranger_update_rejected() {
    let mut s = blank_state();
    init_main_state(&mut s, &id(5)).unwrap();
    let before = s;
    let input = UpdateMainStateInput {
        owner: id(6),
        fee_recipient: id(7),
        trading_fee: 2_500,
        max_buy_limit: 123,
    };
    let r = update_main_state(&mut s, &id(9), &input);
    assert_eq!(r.unwrap_err(), PumpFunError::Unauthorised);
    assert_eq!(s, before);
}

#[test]
fn update_before_init_rejected() {
    let mut s = blank_state();
    let before = s;
    let input = UpdateMainStateInput {
        owner: id(6),
        fee_recipient: id(7),
        trading_fee: 2_500,
        max_buy_limit: 123,
    };
    let r = update_main_state(&mut s, &id(0), &input);
    assert_eq!(r.unwrap_err(), PumpFunError::Uninitialized);
    assert_eq!(s, before);
}
