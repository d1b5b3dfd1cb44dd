use theforge::constants::{MAX_AMOUNT, MAX_INGOT_SUPPLY};
use theforge::error::SmeltingError;
use theforge::forge::{draw_is_success, initialize, smelt, unsmelt, HostEnv, SmeltAccounts,
    UnsmeltAccounts};
use theforge::identity::Identity;
use theforge::ledger::{LedgerCommand, SmeltEvent};
use theforge::state::SmeltingState;

fn id(n: u64) -> Identity {
    Identity { w0: n, w1: 0, w2: 0, w3: 0 }
}

fn market() -> SmeltingState {
    initialize(
        id(1), // authority
        254,
        id(2), // ore mint
        id(3), // ingot mint
        id(4), // coal mint
        id(5), // ore vault
        6,
        6,
        6,
        80,
        10,
        0,
    )
    .unwrap()
}

fn accounts() -> SmeltAccounts {
    SmeltAccounts {
        user_authority: id(10),
        user_ore_account: id(11),
        user_coal_account: id(12),
        user_ingot_account: id(13),
    }
}

fn env(seed_byte: u8) -> HostEnv {
    HostEnv { now: 1000, seed_byte, caller_lamports: 2, minimum_balance: 1 }
}

#[test]
fn initialize_validates_rate_and_coal_minimum() {
    assert_eq!(
        initialize(id(1), 0, id(2), id(3), id(4), id(5), 6, 6, 6, 101, 10, 0).unwrap_err(),
        SmeltingError::InvalidSmeltingSuccessRate
    );
    assert_eq!(
        initialize(id(1), 0, id(2), id(3), id(4), id(5), 6, 6, 6, 80, 0, 0).unwrap_err(),
        SmeltingError::InvalidAmount
    );
    let st = market();
    assert!(st.is_initialized);
    assert_eq!(st.success_rate, 80);
    assert_eq!(st.minimum_coal_amount, 10);
    assert_eq!(st.total_ingots_minted, 0);
    assert!(!st.is_processing);
}

#[test]
fn smelt_with_zero_ore_fails_invalid_amount_without_ledger_calls() {
    let mut st = market();
    let before = st;
    let failure = smelt(&mut st, &accounts(), 0, 10, &env(0)).unwrap_err();
    assert_eq!(failure.error, SmeltingError::InvalidAmount);
    assert!(failure.commands.is_empty());
    assert_eq!(st, before);
}

#[test]
fn smelt_rejects_amount_above_maximum() {
    let mut st = market();
    let failure = smelt(&mut st, &accounts(), MAX_AMOUNT + 1, 10, &env(0)).unwrap_err();
    assert_eq!(failure.error, SmeltingError::InvalidAmount);
    assert!(failure.commands.is_empty());
}

#[test]
fn smelt_rejects_insufficient_coal() {
    let mut st = market();
    let failure = smelt(&mut st, &accounts(), 1000, 9, &env(0)).unwrap_err();
    assert_eq!(failure.error, SmeltingError::InsufficientCoal);
    assert!(failure.commands.is_empty());
}

#[test]
fn smelt_rejects_when_latch_is_set() {
    let mut st = market();
    st.is_processing = true;
    let failure = smelt(&mut st, &accounts(), 1000, 10, &env(0)).unwrap_err();
    assert_eq!(failure.error, SmeltingError::ReentrancyDetected);
    assert!(failure.commands.is_empty());
}

#[test]
fn smelt_rejects_before_cooldown_elapses() {
    let mut st = market();
    st.cooldown_period = 3600;
    st.last_operation_time = 1000;
    let mut e = env(0);
    e.now = 4599;
    let failure = smelt(&mut st, &accounts(), 1000, 10, &e).unwrap_err();
    assert_eq!(failure.error, SmeltingError::CooldownNotMet);
    e.now = 4600;
    assert!(smelt(&mut st, &accounts(), 1000, 10, &e).is_ok());
    assert_eq!(st.last_operation_time, 4600);
}

#[test]
fn smelt_rejects_insufficient_funds() {
    let mut st = market();
    let mut e = env(0);
    e.caller_lamports = 1;
    e.minimum_balance = 1;
    let failure = smelt(&mut st, &accounts(), 1000, 10, &e).unwrap_err();
    assert_eq!(failure.error, SmeltingError::InsufficientFunds);
}

#[test]
fn smelt_success_burns_coal_locks_ore_and_mints() {
    let mut st = market();
    let acc = accounts();
    // Seed byte 0 lies below the threshold for rate 80, so the draw succeeds.
    let outcome = smelt(&mut st, &acc, 1000, 10, &env(0)).unwrap();
    assert_eq!(
        outcome.commands,
        vec![
            LedgerCommand::Burn { token: id(4), from: id(12), authority: id(10), amount: 10 },
            LedgerCommand::Transfer {
                token: id(2),
                from: id(11),
                to: id(5),
                authority: id(10),
                amount: 1000,
            },
            LedgerCommand::Mint { token: id(3), to: id(13), mint_authority: id(1), amount: 1000 },
        ]
    );
    match outcome.event {
        SmeltEvent::Successful(ev) => {
            assert_eq!(ev.ore_amount, 1000);
            assert_eq!(ev.coal_amount, 10);
            assert_eq!(ev.ingot_amount, 1000);
            assert_eq!(ev.user, id(10));
        }
        SmeltEvent::Failed(_) => panic!("expected a successful smelt"),
    }
    assert_eq!(st.total_ingots_minted, 1000);
    assert_eq!(st.total_ore_locked, 1000);
    assert_eq!(st.last_operation_time, 1000);
    assert!(!st.is_processing);
}

#[test]
fn smelt_failed_draw_burns_coal_only() {
    let mut st = market();
    // Seed byte 255 lies above the threshold for rate 80, so the draw fails.
    let outcome = smelt(&mut st, &accounts(), 1000, 10, &env(255)).unwrap();
    assert_eq!(
        outcome.commands,
        vec![LedgerCommand::Burn { token: id(4), from: id(12), authority: id(10), amount: 10 }]
    );
    match outcome.event {
        SmeltEvent::Failed(ev) => assert_eq!(ev.coal_amount, 10),
        SmeltEvent::Successful(_) => panic!("expected a failed smelt"),
    }
    assert_eq!(st.total_ingots_minted, 0);
    assert_eq!(st.total_ore_locked, 0);
    assert_eq!(st.last_operation_time, 1000);
}

#[test]
fn smelt_over_the_cap_keeps_the_coal_burn() {
    let mut st = market();
    st.total_ingots_minted = MAX_INGOT_SUPPLY - 500;
    let failure = smelt(&mut st, &accounts(), 1000, 10, &env(0)).unwrap_err();
    assert_eq!(failure.error, SmeltingError::MaxSupplyExceeded);
    assert_eq!(
        failure.commands,
        vec![LedgerCommand::Burn { token: id(4), from: id(12), authority: id(10), amount: 10 }]
    );
    assert_eq!(st.total_ingots_minted, MAX_INGOT_SUPPLY - 500);
    assert_eq!(st.last_operation_time, 1000);
    assert!(!st.is_processing);
}

#[test]
fn draw_never_succeeds_at_rate_zero_and_always_at_rate_hundred() {
    for seed in 0..=255u8 {
        assert!(!draw_is_success(seed, 0));
        assert!(draw_is_success(seed, 100));
    }
}

#[test]
fn smelt_at_rate_zero_never_mints() {
    for seed in [0u8, 1, 127, 254, 255] {
        let mut st = market();
        st.success_rate = 0;
        let outcome = smelt(&mut st, &accounts(), 1000, 10, &env(seed)).unwrap();
        assert!(matches!(outcome.event, SmeltEvent::Failed(_)));
        assert_eq!(st.total_ingots_minted, 0);
    }
}

#[test]
fn smelt_at_rate_hundred_always_mints_under_the_cap() {
    for seed in [0u8, 1, 127, 254, 255] {
        let mut st = market();
        st.success_rate = 100;
        let outcome = smelt(&mut st, &accounts(), 1000, 10, &env(seed)).unwrap();
        assert!(matches!(outcome.event, SmeltEvent::Successful(_)));
        assert_eq!(st.total_ingots_minted, 1000);
    }
}

fn unsmelt_accounts() -> UnsmeltAccounts {
    UnsmeltAccounts {
        user_authority: id(10),
        user_ore_account: id(11),
        user_ingot_account: id(13),
    }
}

#[test]
fn unsmelt_returns_amount_minus_five_percent_fee() {
    let mut st = market();
    st.total_ingots_minted = 5000;
    st.total_ore_locked = 5000;
    let outcome = unsmelt(&mut st, &unsmelt_accounts(), 1000, 1500, 2000, &env(0)).unwrap();
    assert_eq!(
        outcome.commands,
        vec![
            LedgerCommand::Burn { token: id(3), from: id(13), authority: id(10), amount: 1000 },
            LedgerCommand::Transfer {
                token: id(2),
                from: id(5),
                to: id(11),
                authority: id(1),
                amount: 950,
            },
        ]
    );
    assert_eq!(outcome.event.ingot_amount, 1000);
    assert_eq!(outcome.event.ore_amount, 950);
    assert_eq!(st.total_ingots_minted, 4000);
    assert_eq!(st.total_ore_locked, 4050);
    assert!(!st.is_processing);
}

#[test]
fn unsmelt_rejects_zero_and_oversized_amounts() {
    let mut st = market();
    assert_eq!(
        unsmelt(&mut st, &unsmelt_accounts(), 0, 1500, 2000, &env(0)).unwrap_err(),
        SmeltingError::InvalidAmount
    );
    assert_eq!(
        unsmelt(&mut st, &unsmelt_accounts(), MAX_AMOUNT + 1, u64::MAX, u64::MAX, &env(0))
            .unwrap_err(),
        SmeltingError::InvalidAmount
    );
}

#[test]
fn unsmelt_rejects_insufficient_ingot_balance() {
    let mut st = market();
    assert_eq!(
        unsmelt(&mut st, &unsmelt_accounts(), 1000, 999, 2000, &env(0)).unwrap_err(),
        SmeltingError::InsufficientIngot
    );
}

#[test]
fn unsmelt_rejects_insufficient_vault_ore() {
    let mut st = market();
    // 950 ore must come back for 1000 ingots; a vault of 949 cannot cover it.
    assert_eq!(
        unsmelt(&mut st, &unsmelt_accounts(), 1000, 1500, 949, &env(0)).unwrap_err(),
        SmeltingError::InsufficientProgramOre
    );
    let mut st = market();
    assert!(unsmelt(&mut st, &unsmelt_accounts(), 1000, 1500, 950, &env(0)).is_ok());
}

#[test]
fn unsmelt_rejects_when_latch_is_set() {
    let mut st = market();
    st.is_processing = true;
    assert_eq!(
        unsmelt(&mut st, &unsmelt_accounts(), 1000, 1500, 2000, &env(0)).unwrap_err(),
        SmeltingError::ReentrancyDetected
    );
}

#[test]
fn unsmelt_rejects_insufficient_funds() {
    let mut st = market();
    let mut e = env(0);
    e.caller_lamports = 0;
    assert_eq!(
        unsmelt(&mut st, &unsmelt_accounts(), 1000, 1500, 2000, &e).unwrap_err(),
        SmeltingError::InsufficientFunds
    );
}
