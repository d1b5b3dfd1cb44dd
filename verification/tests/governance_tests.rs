use theforge::error::SmeltingError;
use theforge::forge::initialize;
use theforge::governance::{approve_parameter_update, count_approvals, initialize_multi_sig,
    propose_parameter_update};
use theforge::identity::Identity;
use theforge::state::SmeltingState;

fn id(n: u64) -> Identity {
    Identity { w0: n, w1: 0, w2: 0, w3: 0 }
}

fn market() -> SmeltingState {
    initialize(id(1), 254, id(2), id(3), id(4), id(5), 6, 6, 6, 80, 10, 0).unwrap()
}

fn signers3() -> Vec<Identity> {
    vec![id(21), id(22), id(23)]
}

#[test]
fn initialize_multi_sig_records_roster_and_link() {
    let mut st = market();
    let ms = initialize_multi_sig(&mut st, id(20), signers3(), 2).unwrap();
    assert_eq!(ms.signers, signers3());
    assert_eq!(ms.threshold, 2);
    assert_eq!(ms.nonce, 0);
    assert_eq!(st.multi_sig_authority, id(20));
}

#[test]
fn initialize_multi_sig_rejects_zero_threshold() {
    let mut st = market();
    assert_eq!(
        initialize_multi_sig(&mut st, id(20), signers3(), 0).unwrap_err(),
        SmeltingError::InvalidThreshold
    );
}

#[test]
fn initialize_multi_sig_rejects_unreachable_threshold() {
    let mut st = market();
    assert_eq!(
        initialize_multi_sig(&mut st, id(20), signers3(), 4).unwrap_err(),
        SmeltingError::InvalidSignerCount
    );
}

#[test]
fn initialize_multi_sig_rejects_more_than_ten_signers() {
    let mut st = market();
    let roster: Vec<Identity> = (0..11).map(|n| id(100 + n)).collect();
    assert_eq!(
        initialize_multi_sig(&mut st, id(20), roster, 2).unwrap_err(),
        SmeltingError::TooManySigners
    );
    let mut st = market();
    let roster: Vec<Identity> = (0..10).map(|n| id(100 + n)).collect();
    assert!(initialize_multi_sig(&mut st, id(20), roster, 10).is_ok());
}

#[test]
fn initialize_multi_sig_rejects_duplicate_signers() {
    let mut st = market();
    assert_eq!(
        initialize_multi_sig(&mut st, id(20), vec![id(21), id(22), id(21)], 2).unwrap_err(),
        SmeltingError::InvalidSignerCount
    );
}

#[test]
fn propose_rejects_an_outside_proposer() {
    let mut st = market();
    let mut ms = initialize_multi_sig(&mut st, id(20), signers3(), 2).unwrap();
    assert_eq!(
        propose_parameter_update(&mut ms, id(99), None, None, Some(3600)).unwrap_err(),
        SmeltingError::UnauthorizedProposer
    );
    assert_eq!(ms.nonce, 0);
}

#[test]
fn propose_snapshots_nonce_and_increments_it() {
    let mut st = market();
    let mut ms = initialize_multi_sig(&mut st, id(20), signers3(), 2).unwrap();
    let p1 = propose_parameter_update(&mut ms, id(21), Some(50), None, None).unwrap();
    assert_eq!(p1.nonce, 0);
    assert_eq!(ms.nonce, 1);
    let p2 = propose_parameter_update(&mut ms, id(22), None, Some(25), None).unwrap();
    assert_eq!(p2.nonce, 1);
    assert_eq!(ms.nonce, 2);
    assert_eq!(p1.approvals, vec![false, false, false]);
    assert!(!p1.is_executed);
    assert_eq!(p1.proposed_by, id(21));
    assert_eq!(p1.new_success_rate, Some(50));
    assert_eq!(p1.new_minimum_coal, None);
}

#[test]
fn three_signer_threshold_two_proposal_lifecycle() {
    let mut st = market();
    let ms = initialize_multi_sig(&mut st, id(20), signers3(), 2).unwrap();
    let mut ms_mut = ms.clone();
    let mut proposal =
        propose_parameter_update(&mut ms_mut, id(21), None, None, Some(3600)).unwrap();

    // First approval: below the threshold, the proposal stays open.
    let executed = approve_parameter_update(&ms, &mut proposal, &mut st, id(21)).unwrap();
    assert!(!executed);
    assert!(!proposal.is_executed);
    assert_eq!(proposal.approvals, vec![true, false, false]);
    assert_eq!(st.cooldown_period, 0);

    // Second approval by a different signer: the proposal executes.
    let executed = approve_parameter_update(&ms, &mut proposal, &mut st, id(23)).unwrap();
    assert!(executed);
    assert!(proposal.is_executed);
    assert_eq!(st.cooldown_period, 3600);

    // A third approval is rejected: the proposal is terminal.
    assert_eq!(
        approve_parameter_update(&ms, &mut proposal, &mut st, id(22)).unwrap_err(),
        SmeltingError::ProposalAlreadyExecuted
    );
    assert_eq!(st.cooldown_period, 3600);
}

#[test]
fn approve_twice_by_the_same_signer_is_rejected_without_change() {
    let mut st = market();
    let ms = initialize_multi_sig(&mut st, id(20), signers3(), 2).unwrap();
    let mut ms_mut = ms.clone();
    let mut proposal =
        propose_parameter_update(&mut ms_mut, id(21), None, None, Some(3600)).unwrap();
    assert!(!approve_parameter_update(&ms, &mut proposal, &mut st, id(22)).unwrap());
    let before_p = proposal.clone();
    let before_st = st;
    assert_eq!(
        approve_parameter_update(&ms, &mut proposal, &mut st, id(22)).unwrap_err(),
        SmeltingError::AlreadyApproved
    );
    assert_eq!(proposal, before_p);
    assert_eq!(st, before_st);
}

#[test]
fn approve_rejects_an_outside_signer() {
    let mut st = market();
    let ms = initialize_multi_sig(&mut st, id(20), signers3(), 2).unwrap();
    let mut ms_mut = ms.clone();
    let mut proposal =
        propose_parameter_update(&mut ms_mut, id(21), None, None, Some(3600)).unwrap();
    assert_eq!(
        approve_parameter_update(&ms, &mut proposal, &mut st, id(99)).unwrap_err(),
        SmeltingError::UnauthorizedSigner
    );
    assert_eq!(proposal.approvals, vec![false, false, false]);
}

#[test]
fn execution_applies_every_present_field() {
    let mut st = market();
    let ms = initialize_multi_sig(&mut st, id(20), signers3(), 1).unwrap();
    let mut ms_mut = ms.clone();
    let mut proposal =
        propose_parameter_update(&mut ms_mut, id(21), Some(55), Some(17), Some(7200)).unwrap();
    assert!(approve_parameter_update(&ms, &mut proposal, &mut st, id(22)).unwrap());
    assert_eq!(st.success_rate, 55);
    assert_eq!(st.minimum_coal_amount, 17);
    assert_eq!(st.cooldown_period, 7200);
}

#[test]
fn execution_rejects_an_invalid_stored_rate_atomically() {
    let mut st = market();
    let ms = initialize_multi_sig(&mut st, id(20), signers3(), 1).unwrap();
    let mut ms_mut = ms.clone();
    let mut proposal =
        propose_parameter_update(&mut ms_mut, id(21), Some(101), Some(17), None).unwrap();
    let before_st = st;
    let before_p = proposal.clone();
    assert_eq!(
        approve_parameter_update(&ms, &mut proposal, &mut st, id(21)).unwrap_err(),
        SmeltingError::InvalidSmeltingSuccessRate
    );
    // Nothing was applied, not even the approval slot.
    assert_eq!(st, before_st);
    assert_eq!(proposal, before_p);
}

#[test]
fn execution_rejects_a_zero_stored_coal_minimum() {
    let mut st = market();
    let ms = initialize_multi_sig(&mut st, id(20), signers3(), 1).unwrap();
    let mut ms_mut = ms.clone();
    let mut proposal =
        propose_parameter_update(&mut ms_mut, id(21), None, Some(0), None).unwrap();
    assert_eq!(
        approve_parameter_update(&ms, &mut proposal, &mut st, id(21)).unwrap_err(),
        SmeltingError::InvalidAmount
    );
    assert_eq!(st.minimum_coal_amount, 10);
}

#[test]
fn count_approvals_counts_set_slots() {
    assert_eq!(count_approvals(&vec![]), 0);
    assert_eq!(count_approvals(&vec![false, false]), 0);
    assert_eq!(count_approvals(&vec![true, false, true, true]), 3);
}
