use theforge::constants::MAX_INGOT_SUPPLY;
use theforge::error::SmeltingError;
use theforge::forge::initialize;
use theforge::identity::Identity;
use theforge::instruction::SmeltingInstruction;
use theforge::ledger::{LedgerCommand, SmeltEvent};
use theforge::processor::{OpContext, ProcessEvent, Processor};
use theforge::state::SmeltingState;

fn id(n: u64) -> Identity {
    Identity { w0: n, w1: 0, w2: 0, w3: 0 }
}

fn market() -> SmeltingState {
    initialize(id(1), 254, id(2), id(3), id(4), id(5), 6, 6, 6, 80, 10, 0).unwrap()
}

fn ctx(slot: u64) -> OpContext {
    OpContext {
        caller: id(1),
        caller_is_signer: true,
        user_ore_account: id(11),
        user_coal_account: id(12),
        user_ingot_account: id(13),
        ingot_mint_account: id(3),
        source_account: id(14),
        destination_account: id(15),
        user_ingot_balance: 100_000,
        vault_ore_balance: 100_000,
        now: 1000,
        slot,
        caller_lamports: 2,
        minimum_balance: 1,
    }
}

fn op(tag: u8, amount: u64) -> Vec<u8> {
    let mut data = vec![tag];
    data.extend_from_slice(&amount.to_le_bytes());
    data
}

#[test]
fn instruction_unpack_reads_tag_and_little_endian_amount() {
    assert_eq!(
        SmeltingInstruction::unpack(&op(0, 1000)),
        Ok(SmeltingInstruction::Smelt { amount: 1000 })
    );
    assert_eq!(
        SmeltingInstruction::unpack(&op(1, 7)),
        Ok(SmeltingInstruction::Unsmelt { amount: 7 })
    );
    assert_eq!(
        SmeltingInstruction::unpack(&op(2, u64::MAX)),
        Ok(SmeltingInstruction::MintIngot { amount: u64::MAX })
    );
    assert_eq!(
        SmeltingInstruction::unpack(&op(3, 1)),
        Ok(SmeltingInstruction::TransferOre { amount: 1 })
    );
    assert_eq!(
        SmeltingInstruction::unpack(&op(4, 2)),
        Ok(SmeltingInstruction::TransferIngot { amount: 2 })
    );
    let mut raw = vec![0u8; 9];
    raw[1] = 0x34;
    raw[2] = 0x12;
    assert_eq!(
        SmeltingInstruction::unpack(&raw),
        Ok(SmeltingInstruction::Smelt { amount: 0x1234 })
    );
}

#[test]
fn instruction_unpack_rejects_malformed_input() {
    assert_eq!(
        SmeltingInstruction::unpack(&[]),
        Err(SmeltingError::InvalidInstruction)
    );
    assert_eq!(
        SmeltingInstruction::unpack(&[0u8; 5]),
        Err(SmeltingError::InvalidInstruction)
    );
    assert_eq!(
        SmeltingInstruction::unpack(&[0u8; 10]),
        Err(SmeltingError::InvalidInstruction)
    );
    assert_eq!(
        SmeltingInstruction::unpack(&op(5, 1000)),
        Err(SmeltingError::InvalidInstruction)
    );
}

#[test]
fn process_rejects_zero_and_oversized_amounts_before_any_ledger_call() {
    let mut st = market();
    let before = st;
    let failure = Processor::process(&mut st, &op(0, 0), &ctx(0)).unwrap_err();
    assert_eq!(failure.error, SmeltingError::InvalidInstruction);
    assert!(failure.commands.is_empty());
    let failure = Processor::process(&mut st, &op(1, 1_000_000_001), &ctx(0)).unwrap_err();
    assert_eq!(failure.error, SmeltingError::InvalidInstruction);
    assert!(failure.commands.is_empty());
    assert_eq!(st, before);
}

#[test]
fn seed_derivation_follows_the_slot_hash() {
    // The draw for slot 0 uses the first byte of sha256(le_bytes(0)), which
    // is 175: a rate of 69 (threshold 176) succeeds, a rate of 68
    // (threshold 174) fails. A seed taken from anything but the hash of the
    // slot would disagree with one of the two.
    let digest = solana_program::hash::hash(&0u64.to_le_bytes()).to_bytes();
    assert_eq!(digest[0], 175);

    let mut st = market();
    st.success_rate = 69;
    let outcome = Processor::process_smelt(&mut st, &ctx(0), 1000).unwrap();
    assert!(matches!(outcome.event, SmeltEvent::Successful(_)));

    let mut st = market();
    st.success_rate = 68;
    let outcome = Processor::process_smelt(&mut st, &ctx(0), 1000).unwrap();
    assert!(matches!(outcome.event, SmeltEvent::Failed(_)));
}

#[test]
fn smelt_success_frequency_tracks_the_configured_rate() {
    // With rate 80 the threshold is floor(80 * 256 / 100) = 204, so over
    // uniform seed bytes the success probability is 204/256, about 79.7%.
    // Over 10,000 consecutive slots the observed frequency must sit within
    // three points of 80%.
    let mut successes: u32 = 0;
    for slot in 0..10_000u64 {
        let mut st = market();
        let outcome = Processor::process_smelt(&mut st, &ctx(slot), 1000).unwrap();
        match outcome.event {
            SmeltEvent::Successful(ev) => {
                successes += 1;
                assert_eq!(ev.ingot_amount, 1000);
                assert_eq!(st.total_ore_locked, 1000);
                assert_eq!(st.total_ingots_minted, 1000);
            }
            SmeltEvent::Failed(_) => {
                assert_eq!(st.total_ingots_minted, 0);
            }
        }
        // The coal burn is owed on both outcomes.
        assert!(matches!(
            outcome.commands[0],
            LedgerCommand::Burn { amount: 1000, .. }
        ));
    }
    assert!(successes >= 7700, "only {successes} of 10000 smelts succeeded");
    assert!(successes <= 8300, "{successes} of 10000 smelts succeeded");
}

#[test]
fn process_smelt_via_dispatch_reports_the_event() {
    let mut st = market();
    st.success_rate = 100;
    let outcome = Processor::process(&mut st, &op(0, 1000), &ctx(0)).unwrap();
    assert_eq!(outcome.commands.len(), 3);
    assert!(matches!(
        outcome.event,
        Some(ProcessEvent::Smelt(SmeltEvent::Successful(_)))
    ));
    assert_eq!(st.total_ingots_minted, 1000);
}

#[test]
fn process_unsmelt_via_dispatch_applies_the_fee() {
    let mut st = market();
    st.total_ingots_minted = 5000;
    st.total_ore_locked = 5000;
    let outcome = Processor::process(&mut st, &op(1, 1000), &ctx(0)).unwrap();
    match outcome.event {
        Some(ProcessEvent::Unsmelt(ev)) => {
            assert_eq!(ev.ingot_amount, 1000);
            assert_eq!(ev.ore_amount, 950);
        }
        _ => panic!("expected an unsmelt event"),
    }
    assert_eq!(st.total_ingots_minted, 4000);
    assert_eq!(st.total_ore_locked, 4050);
}

#[test]
fn mint_ingot_by_the_authority_mints_and_books() {
    let mut st = market();
    let commands = Processor::process_mint_ingot(&mut st, &ctx(0), 500).unwrap();
    assert_eq!(
        commands,
        vec![LedgerCommand::Mint { token: id(3), to: id(13), mint_authority: id(1), amount: 500 }]
    );
    assert_eq!(st.total_ingots_minted, 500);
}

#[test]
fn mint_ingot_by_a_non_authority_fails_without_ledger_calls() {
    let mut st = market();
    let before = st;

    // An authenticated caller that is not the authority.
    let mut c = ctx(0);
    c.caller = id(99);
    let outcome = Processor::process(&mut st, &op(2, 500), &c);
    match outcome {
        Err(failure) => {
            assert_eq!(failure.error, SmeltingError::Unauthorized);
            assert!(failure.commands.is_empty());
        }
        Ok(_) => panic!("expected the mint to be rejected"),
    }
    assert_eq!(st, before);

    // The authority without an authorization proof.
    let mut c = ctx(0);
    c.caller_is_signer = false;
    let outcome = Processor::process(&mut st, &op(2, 500), &c);
    match outcome {
        Err(failure) => {
            assert_eq!(failure.error, SmeltingError::MissingRequiredSignature);
            assert!(failure.commands.is_empty());
        }
        Ok(_) => panic!("expected the mint to be rejected"),
    }
    assert_eq!(st, before);
}

#[test]
fn mint_ingot_respects_the_supply_cap() {
    let mut st = market();
    st.total_ingots_minted = MAX_INGOT_SUPPLY - 100;
    assert_eq!(
        Processor::process_mint_ingot(&mut st, &ctx(0), 101).unwrap_err(),
        SmeltingError::MaxSupplyExceeded
    );
    assert_eq!(st.total_ingots_minted, MAX_INGOT_SUPPLY - 100);
    assert!(Processor::process_mint_ingot(&mut st, &ctx(0), 100).is_ok());
    assert_eq!(st.total_ingots_minted, MAX_INGOT_SUPPLY);
}

#[test]
fn transfers_are_passthrough_and_need_a_signature() {
    let st = market();
    let commands = Processor::process_transfer_ore(&st, &ctx(0), 250).unwrap();
    assert_eq!(
        commands,
        vec![LedgerCommand::Transfer {
            token: id(2),
            from: id(14),
            to: id(15),
            authority: id(1),
            amount: 250,
        }]
    );
    let commands = Processor::process_transfer_ingot(&st, &ctx(0), 250).unwrap();
    assert_eq!(
        commands,
        vec![LedgerCommand::Transfer {
            token: id(3),
            from: id(14),
            to: id(15),
            authority: id(1),
            amount: 250,
        }]
    );
    let mut c = ctx(0);
    c.caller_is_signer = false;
    assert_eq!(
        Processor::process_transfer_ore(&st, &c, 250).unwrap_err(),
        SmeltingError::MissingRequiredSignature
    );
}

#[test]
fn transfer_via_dispatch_keeps_the_record_unchanged() {
    let mut st = market();
    let before = st;
    let outcome = Processor::process(&mut st, &op(3, 250), &ctx(0)).unwrap();
    assert_eq!(outcome.commands.len(), 1);
    assert_eq!(outcome.event, None);
    assert_eq!(st, before);
    let outcome = Processor::process(&mut st, &op(4, 250), &ctx(0)).unwrap();
    assert_eq!(outcome.commands.len(), 1);
    assert_eq!(st, before);
}

#[test]
fn process_rejects_an_unknown_tag() {
    let mut st = market();
    let failure = Processor::process(&mut st, &op(9, 1000), &ctx(0)).unwrap_err();
    assert_eq!(failure.error, SmeltingError::InvalidInstruction);
    assert!(failure.commands.is_empty());
}
