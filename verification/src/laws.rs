//! The engine's standing guarantees, each proved from the transition specs.

use vstd::prelude::*;
use crate::constants::MAX_INGOT_SUPPLY;
use crate::error::SmeltingError;
use crate::forge::{HostEnv, SmeltAccounts, UnsmeltAccounts, spec_smelt, spec_smelt_error,
    spec_unsmelt};
use crate::governance::{MultiSigView, ProposalView, count_true, signer_slot, spec_approve,
    spec_is_signer};
use crate::identity::Identity;
use crate::ledger::{LedgerCommand, SmeltEvent};
use crate::processor::{OpContext, instruction_amount, spec_mint_ingot, spec_process};
use crate::instruction::spec_unpack_instruction;
use crate::state::{SmeltingState, lemma_spec_convert_nonneg, spec_convert};

verus! {

/// A smelt never leaves the minted total above the supply cap, and a
/// well-formed record stays well formed.
pub proof fn lemma_smelt_preserves_supply_cap(
    st: SmeltingState,
    acc: SmeltAccounts,
    ore_amount: u64,
    coal_amount: u64,
    env: HostEnv,
)
    requires
        st.wf(),
    ensures
        spec_smelt(st, acc, ore_amount, coal_amount, env).0.total_ingots_minted
            <= MAX_INGOT_SUPPLY,
        spec_smelt(st, acc, ore_amount, coal_amount, env).0.wf(),
{
    lemma_spec_convert_nonneg(ore_amount, st.ore_decimals, st.ingot_decimals);
}

/// An unsmelt never grows the minted total, and a well-formed record stays
/// well formed.
pub proof fn lemma_unsmelt_preserves_supply_cap(
    st: SmeltingState,
    acc: UnsmeltAccounts,
    ingot_amount: u64,
    user_ingot_balance: u64,
    vault_ore_balance: u64,
    env: HostEnv,
)
    requires
        st.wf(),
    ensures
        spec_unsmelt(
            st,
            acc,
            ingot_amount,
            user_ingot_balance,
            vault_ore_balance,
            env,
        ).0.total_ingots_minted <= st.total_ingots_minted,
        spec_unsmelt(st, acc, ingot_amount, user_ingot_balance, vault_ore_balance, env).0.wf(),
{
}

/// A direct mint never leaves the minted total above the supply cap.
pub proof fn lemma_mint_ingot_preserves_supply_cap(
    st: SmeltingState,
    caller: Identity,
    caller_is_signer: bool,
    ingot_mint_account: Identity,
    ingot_account: Identity,
    amount: u64,
)
    requires
        st.wf(),
    ensures
        spec_mint_ingot(
            st,
            caller,
            caller_is_signer,
            ingot_mint_account,
            ingot_account,
            amount,
        ).0.total_ingots_minted <= MAX_INGOT_SUPPLY,
        spec_mint_ingot(st, caller, caller_is_signer, ingot_mint_account, ingot_account, amount).0.wf(),
{
}

/// An approval never touches the running totals and keeps a well-formed
/// record well formed: an executed proposal writes a validated rate only.
pub proof fn lemma_approve_preserves_supply_cap(
    ms: MultiSigView,
    p: ProposalView,
    st: SmeltingState,
    signer: Identity,
)
    requires
        st.wf(),
    ensures
        match spec_approve(ms, p, st, signer) {
            Ok((p1, st1, executed)) => st1.total_ingots_minted == st.total_ingots_minted
                && st1.wf(),
            Err(_) => true,
        },
{
}

/// Whatever raw operation arrives, the minted total respects the supply
/// cap afterwards; with the other per-operation bounds this carries the cap
/// through every sequence of operations that starts from a well-formed
/// record.
pub proof fn lemma_process_preserves_supply_cap(st: SmeltingState, data: Seq<u8>, ctx: OpContext)
    requires
        st.wf(),
    ensures
        spec_process(st, data, ctx).0.total_ingots_minted <= MAX_INGOT_SUPPLY,
        spec_process(st, data, ctx).0.wf(),
{
    match spec_unpack_instruction(data) {
        Ok(instr) => {
            lemma_spec_convert_nonneg(instruction_amount(instr), st.ore_decimals,
                st.ingot_decimals);
        },
        Err(_) => {},
    }
}

/// The record a sequence of raw operations leaves behind, each operation
/// fed the byte string and host facts of its turn.
pub open spec fn spec_process_all(st: SmeltingState, ops: Seq<(Seq<u8>, OpContext)>) -> SmeltingState
    decreases ops.len(),
{
    if ops.len() == 0 {
        st
    } else {
        spec_process_all(spec_process(st, ops[0].0, ops[0].1).0, ops.drop_first())
    }
}

/// Over every sequence of operations, the minted total respects the supply
/// cap after each step: a well-formed record stays well formed forever.
pub proof fn lemma_supply_cap_over_all_operations(st: SmeltingState, ops: Seq<(Seq<u8>, OpContext)>)
    requires
        st.wf(),
    ensures
        spec_process_all(st, ops).wf(),
        spec_process_all(st, ops).total_ingots_minted <= MAX_INGOT_SUPPLY,
    decreases ops.len(),
{
    if ops.len() > 0 {
        lemma_process_preserves_supply_cap(st, ops[0].0, ops[0].1);
        lemma_supply_cap_over_all_operations(spec_process(st, ops[0].0, ops[0].1).0, ops.drop_first());
    }
}

/// Approving twice with the same signer is rejected: after one recorded
/// approval that leaves the proposal open, the same signer's next approval
/// yields `AlreadyApproved`, and by `approve_parameter_update`'s contract a
/// rejected approval changes nothing.
pub proof fn lemma_approve_idempotent_per_signer(
    ms: MultiSigView,
    p: ProposalView,
    st: SmeltingState,
    signer: Identity,
)
    requires
        ms.wf(),
        p.compatible_with(ms),
    ensures
        match spec_approve(ms, p, st, signer) {
            Ok((p1, st1, executed)) => !p1.is_executed ==> spec_approve(ms, p1, st1, signer)
                == Err::<(ProposalView, SmeltingState, bool), SmeltingError>(
                SmeltingError::AlreadyApproved,
            ),
            Err(_) => true,
        },
{
    match spec_approve(ms, p, st, signer) {
        Ok((p1, st1, executed)) => {
            assert(spec_is_signer(ms.signers, signer));
            let slot = signer_slot(ms.signers, signer);
            assert(0 <= slot < ms.signers.len() && ms.signers[slot] == signer);
            assert(p1.approvals == p.approvals.update(slot, true));
            if !p1.is_executed {
                assert(p1.approvals[slot] == true);
            }
        },
        Err(_) => {},
    }
}

/// A proposal with valid stored values executes exactly when the count of
/// set approval slots reaches the threshold, and executes at most once: an
/// already-executed proposal only ever answers `ProposalAlreadyExecuted`.
pub proof fn lemma_proposal_executes_iff_threshold(
    ms: MultiSigView,
    p: ProposalView,
    st: SmeltingState,
    signer: Identity,
)
    requires
        ms.wf(),
        p.compatible_with(ms),
        p.values_valid(),
    ensures
        match spec_approve(ms, p, st, signer) {
            Ok((p1, st1, executed)) => executed == p1.is_executed && (p1.is_executed
                <==> count_true(p1.approvals) >= ms.threshold),
            Err(_) => true,
        },
        p.is_executed ==> spec_approve(ms, p, st, signer) == Err::<
            (ProposalView, SmeltingState, bool),
            SmeltingError,
        >(SmeltingError::ProposalAlreadyExecuted),
{
}

/// With a success rate of zero a smelt never mints: the result is never the
/// successful event, no mint call is owed, and the minted total stands.
pub proof fn lemma_smelt_never_mints_at_rate_zero(
    st: SmeltingState,
    acc: SmeltAccounts,
    ore_amount: u64,
    coal_amount: u64,
    env: HostEnv,
)
    requires
        st.success_rate == 0,
    ensures
        ({
            let (st2, cmds, res) = spec_smelt(st, acc, ore_amount, coal_amount, env);
            &&& !(res matches Ok(SmeltEvent::Successful(_)))
            &&& st2.total_ingots_minted == st.total_ingots_minted
            &&& forall|i: int|
                0 <= i < cmds.len() ==> !(#[trigger] cmds[i] matches LedgerCommand::Mint { .. })
        }),
{
}

/// With a success rate of 100 a smelt never fails its draw: whenever the
/// preconditions pass and the supply cap permits, it succeeds.
pub proof fn lemma_smelt_always_succeeds_at_rate_certain(
    st: SmeltingState,
    acc: SmeltAccounts,
    ore_amount: u64,
    coal_amount: u64,
    env: HostEnv,
)
    requires
        st.success_rate == 100,
    ensures
        ({
            let (st2, cmds, res) = spec_smelt(st, acc, ore_amount, coal_amount, env);
            &&& !(res matches Ok(SmeltEvent::Failed(_)))
            &&& (spec_smelt_error(st, ore_amount, coal_amount, env) is None
                && st.total_ingots_minted + spec_convert(
                ore_amount,
                st.ore_decimals,
                st.ingot_decimals,
            ) <= MAX_INGOT_SUPPLY ==> res matches Ok(SmeltEvent::Successful(_)))
        }),
{
}

} // verus!
