//! Raw-operation processing: decode, bound-check, derive the seed, dispatch.

use vstd::prelude::*;
use crate::constants::{MAX_AMOUNT, MAX_INGOT_SUPPLY};
use crate::error::SmeltingError;
use crate::forge::{HostEnv, SmeltAccounts, SmeltFailure, SmeltOutcome, UnsmeltAccounts,
    UnsmeltOutcome, smelt, spec_smelt, spec_unsmelt, unsmelt};
use crate::identity::Identity;
use crate::instruction::{SmeltingInstruction, spec_unpack_instruction};
use crate::ledger::{LedgerCommand, SmeltEvent, UnsmeltingSuccessful};
use crate::state::SmeltingState;

verus! {

/// The byte the success draw uses for a given slot: the first byte of the
/// SHA-256 digest of the slot's little-endian bytes.
pub uninterp spec fn seed_byte_of(slot: u64) -> u8;

/// Relies on solana_program::hash::hash (SHA-256): the digest is a function
/// of the hashed bytes alone, so the byte drawn for a slot is a function of
/// the slot.
#[verifier::external_body]
fn slot_seed_byte(slot: u64) -> (r: u8)
    ensures
        r == seed_byte_of(slot),
{
    solana_program::hash::hash(&slot.to_le_bytes()).to_bytes()[0]
}

/// Everything the host resolved for one raw operation: the caller and
/// whether it presented a valid authorization proof, the token accounts the
/// operation may touch, the balances it must check, and the clock.
#[derive(Clone, Copy, Debug, PartialEq, Eq, Structural)]
pub struct OpContext {
    /// The calling identity: user authority, transfer authority or minter.
    pub caller: Identity,
    /// Whether the caller presented a valid authorization proof.
    pub caller_is_signer: bool,
    /// The caller's ore token account.
    pub user_ore_account: Identity,
    /// The caller's coal token account.
    pub user_coal_account: Identity,
    /// The caller's ingot token account.
    pub user_ingot_account: Identity,
    /// The ingot token identifier handed to a direct mint.
    pub ingot_mint_account: Identity,
    /// Source token account of a plain transfer.
    pub source_account: Identity,
    /// Destination token account of a plain transfer.
    pub destination_account: Identity,
    /// The caller's ingot balance, as the ledger reports it.
    pub user_ingot_balance: u64,
    /// The ore vault's balance, as the ledger reports it.
    pub vault_ore_balance: u64,
    /// The current time, in seconds.
    pub now: u64,
    /// The current slot, seeding the success draw.
    pub slot: u64,
    /// The caller's balance in the native fee currency.
    pub caller_lamports: u64,
    /// The floor that balance must strictly exceed.
    pub minimum_balance: u64,
}

/// The event a processed operation reports, when it reports one.
#[derive(Clone, Copy, Debug, PartialEq, Eq, Structural)]
pub enum ProcessEvent {
    Smelt(SmeltEvent),
    Unsmelt(UnsmeltingSuccessful),
}

/// A processed operation: the ledger calls to make, and its event.
#[derive(Clone, Debug, PartialEq, Eq)]
pub struct ProcessOutcome {
    pub commands: Vec<LedgerCommand>,
    pub event: Option<ProcessEvent>,
}

/// A rejected operation: the error, and the ledger calls already owed.
#[derive(Clone, Debug, PartialEq, Eq)]
pub struct ProcessFailure {
    pub commands: Vec<LedgerCommand>,
    pub error: SmeltingError,
}

/// The host facts a smelt runs under, the seed drawn from the slot.
pub open spec fn smelt_env(ctx: OpContext) -> HostEnv {
    HostEnv {
        now: ctx.now,
        seed_byte: seed_byte_of(ctx.slot),
        caller_lamports: ctx.caller_lamports,
        minimum_balance: ctx.minimum_balance,
    }
}

/// The host facts an unsmelt runs under; no draw is made.
pub open spec fn unsmelt_env(ctx: OpContext) -> HostEnv {
    HostEnv {
        now: ctx.now,
        seed_byte: 0,
        caller_lamports: ctx.caller_lamports,
        minimum_balance: ctx.minimum_balance,
    }
}

/// The accounts a smelt touches, as the context names them.
pub open spec fn smelt_accounts(ctx: OpContext) -> SmeltAccounts {
    SmeltAccounts {
        user_authority: ctx.caller,
        user_ore_account: ctx.user_ore_account,
        user_coal_account: ctx.user_coal_account,
        user_ingot_account: ctx.user_ingot_account,
    }
}

/// The accounts an unsmelt touches, as the context names them.
pub open spec fn unsmelt_accounts(ctx: OpContext) -> UnsmeltAccounts {
    UnsmeltAccounts {
        user_authority: ctx.caller,
        user_ore_account: ctx.user_ore_account,
        user_ingot_account: ctx.user_ingot_account,
    }
}

/// The amount a decoded operation carries.
pub open spec fn instruction_amount(i: SmeltingInstruction) -> u64 {
    match i {
        SmeltingInstruction::Smelt { amount } => amount,
        SmeltingInstruction::Unsmelt { amount } => amount,
        SmeltingInstruction::MintIngot { amount } => amount,
        SmeltingInstruction::TransferOre { amount } => amount,
        SmeltingInstruction::TransferIngot { amount } => amount,
    }
}

/// What a privileged direct mint does: the caller must be authenticated and
/// must be the market's authority; the mint must not pass the supply cap;
/// the minted total then grows by the amount and one mint call is owed.
pub open spec fn spec_mint_ingot(
    st: SmeltingState,
    caller: Identity,
    caller_is_signer: bool,
    ingot_mint_account: Identity,
    ingot_account: Identity,
    amount: u64,
) -> (SmeltingState, Seq<LedgerCommand>, Option<SmeltingError>) {
    if !caller_is_signer {
        (st, Seq::empty(), Some(SmeltingError::MissingRequiredSignature))
    } else if caller != st.authority {
        (st, Seq::empty(), Some(SmeltingError::Unauthorized))
    } else if st.total_ingots_minted + amount > MAX_INGOT_SUPPLY {
        (st, Seq::empty(), Some(SmeltingError::MaxSupplyExceeded))
    } else {
        (
            SmeltingState {
                total_ingots_minted: (st.total_ingots_minted + amount) as u64,
                ..st
            },
            seq![
                LedgerCommand::Mint {
                    token: ingot_mint_account,
                    to: ingot_account,
                    mint_authority: st.authority,
                    amount,
                },
            ],
            None,
        )
    }
}

/// What a plain authority-signed transfer does: one transfer call, no
/// record change; the caller must be authenticated.
pub open spec fn spec_transfer(
    token: Identity,
    source: Identity,
    destination: Identity,
    caller: Identity,
    caller_is_signer: bool,
    amount: u64,
) -> (Seq<LedgerCommand>, Option<SmeltingError>) {
    if !caller_is_signer {
        (Seq::empty(), Some(SmeltingError::MissingRequiredSignature))
    } else {
        (
            seq![
                LedgerCommand::Transfer {
                    token,
                    from: source,
                    to: destination,
                    authority: caller,
                    amount,
                },
            ],
            None,
        )
    }
}

/// What processing a raw operation does: decode it, reject an amount of
/// zero or above `MAX_AMOUNT` before any ledger call, then run the
/// operation the tag selects.
pub open spec fn spec_process(st: SmeltingState, data: Seq<u8>, ctx: OpContext) -> (
    SmeltingState,
    Seq<LedgerCommand>,
    Result<Option<ProcessEvent>, SmeltingError>,
) {
    match spec_unpack_instruction(data) {
        Err(e) => (st, Seq::empty(), Err(e)),
        Ok(instr) => {
            let amount = instruction_amount(instr);
            if amount == 0 || amount > MAX_AMOUNT {
                (st, Seq::empty(), Err(SmeltingError::InvalidInstruction))
            } else {
                match instr {
                    SmeltingInstruction::Smelt { amount } => {
                        let (st2, cmds, res) = spec_smelt(
                            st,
                            smelt_accounts(ctx),
                            amount,
                            amount,
                            smelt_env(ctx),
                        );
                        (
                            st2,
                            cmds,
                            match res {
                                Ok(ev) => Ok(Some(ProcessEvent::Smelt(ev))),
                                Err(e) => Err(e),
                            },
                        )
                    },
                    SmeltingInstruction::Unsmelt { amount } => {
                        let (st2, cmds, res) = spec_unsmelt(
                            st,
                            unsmelt_accounts(ctx),
                            amount,
                            ctx.user_ingot_balance,
                            ctx.vault_ore_balance,
                            unsmelt_env(ctx),
                        );
                        (
                            st2,
                            cmds,
                            match res {
                                Ok(ev) => Ok(Some(ProcessEvent::Unsmelt(ev))),
                                Err(e) => Err(e),
                            },
                        )
                    },
                    SmeltingInstruction::MintIngot { amount } => {
                        let (st2, cmds, err) = spec_mint_ingot(
                            st,
                            ctx.caller,
                            ctx.caller_is_signer,
                            ctx.ingot_mint_account,
                            ctx.user_ingot_account,
                            amount,
                        );
                        (
                            st2,
                            cmds,
                            match err {
                                None => Ok(None),
                                Some(e) => Err(e),
                            },
                        )
                    },
                    SmeltingInstruction::TransferOre { amount } => {
                        let (cmds, err) = spec_transfer(
                            st.ore_mint,
                            ctx.source_account,
                            ctx.destination_account,
                            ctx.caller,
                            ctx.caller_is_signer,
                            amount,
                        );
                        (
                            st,
                            cmds,
                            match err {
                                None => Ok(None),
                                Some(e) => Err(e),
                            },
                        )
                    },
                    SmeltingInstruction::TransferIngot { amount } => {
                        let (cmds, err) = spec_transfer(
                            st.ingot_mint,
                            ctx.source_account,
                            ctx.destination_account,
                            ctx.caller,
                            ctx.caller_is_signer,
                            amount,
                        );
                        (
                            st,
                            cmds,
                            match err {
                                None => Ok(None),
                                Some(e) => Err(e),
                            },
                        )
                    },
                }
            }
        },
    }
}

/// Routes raw operations to the engine.
pub struct Processor;

impl Processor {
    /// Attempts a forward conversion of `amount` ore burning `amount` coal,
    /// the draw seeded from the context's slot.
    pub fn process_smelt(state: &mut SmeltingState, ctx: &OpContext, amount: u64) -> (r: Result<
        SmeltOutcome,
        SmeltFailure,
    >)
        ensures
            ({
                let (st2, cmds, res) = spec_smelt(
                    *old(state),
                    smelt_accounts(*ctx),
                    amount,
                    amount,
                    smelt_env(*ctx),
                );
                &&& *final(state) == st2
                &&& match (r, res) {
                    (Ok(out), Ok(ev)) => out.commands@ == cmds && out.event == ev,
                    (Err(f), Err(e)) => f.commands@ == cmds && f.error == e,
                    _ => false,
                }
            }),
            old(state).wf() ==> final(state).wf(),
    {
        let env = HostEnv {
            now: ctx.now,
            seed_byte: slot_seed_byte(ctx.slot),
            caller_lamports: ctx.caller_lamports,
            minimum_balance: ctx.minimum_balance,
        };
        let accounts = SmeltAccounts {
            user_authority: ctx.caller,
            user_ore_account: ctx.user_ore_account,
            user_coal_account: ctx.user_coal_account,
            user_ingot_account: ctx.user_ingot_account,
        };
        smelt(state, &accounts, amount, amount, &env)
    }

    /// Reverses a conversion of `amount` ingots.
    pub fn process_unsmelt(state: &mut SmeltingState, ctx: &OpContext, amount: u64) -> (r: Result<
        UnsmeltOutcome,
        SmeltingError,
    >)
        ensures
            ({
                let (st2, cmds, res) = spec_unsmelt(
                    *old(state),
                    unsmelt_accounts(*ctx),
                    amount,
                    ctx.user_ingot_balance,
                    ctx.vault_ore_balance,
                    unsmelt_env(*ctx),
                );
                &&& *final(state) == st2
                &&& match (r, res) {
                    (Ok(out), Ok(ev)) => out.commands@ == cmds && out.event == ev,
                    (Err(e1), Err(e2)) => e1 == e2,
                    _ => false,
                }
            }),
            old(state).wf() ==> final(state).wf(),
    {
        let env = HostEnv {
            now: ctx.now,
            seed_byte: 0,
            caller_lamports: ctx.caller_lamports,
            minimum_balance: ctx.minimum_balance,
        };
        let accounts = UnsmeltAccounts {
            user_authority: ctx.caller,
            user_ore_account: ctx.user_ore_account,
            user_ingot_account: ctx.user_ingot_account,
        };
        unsmelt(state, &accounts, amount, ctx.user_ingot_balance, ctx.vault_ore_balance, &env)
    }

    /// Mints `amount` ingots directly, for the market's authority alone.
    pub fn process_mint_ingot(state: &mut SmeltingState, ctx: &OpContext, amount: u64) -> (r:
        Result<Vec<LedgerCommand>, SmeltingError>)
        ensures
            ({
                let (st2, cmds, err) = spec_mint_ingot(
                    *old(state),
                    ctx.caller,
                    ctx.caller_is_signer,
                    ctx.ingot_mint_account,
                    ctx.user_ingot_account,
                    amount,
                );
                &&& *final(state) == st2
                &&& match (r, err) {
                    (Ok(c), None) => c@ == cmds,
                    (Err(e1), Some(e2)) => e1 == e2 && cmds.len() == 0,
                    _ => false,
                }
            }),
            old(state).wf() ==> final(state).wf(),
    {
        if !ctx.caller_is_signer {
            return Err(SmeltingError::MissingRequiredSignature);
        }
        if !(ctx.caller == state.authority) {
            return Err(SmeltingError::Unauthorized);
        }
        let new_total = match state.total_ingots_minted.checked_add(amount) {
            Some(t) => t,
            None => {
                return Err(SmeltingError::MaxSupplyExceeded);
            },
        };
        if new_total > MAX_INGOT_SUPPLY {
            return Err(SmeltingError::MaxSupplyExceeded);
        }
        state.total_ingots_minted = new_total;
        let mut commands: Vec<LedgerCommand> = Vec::new();
        commands.push(
            LedgerCommand::Mint {
                token: ctx.ingot_mint_account,
                to: ctx.user_ingot_account,
                mint_authority: state.authority,
                amount,
            },
        );
        Ok(commands)
    }

    /// Transfers `amount` ore between two accounts, signed by the caller.
    pub fn process_transfer_ore(state: &SmeltingState, ctx: &OpContext, amount: u64) -> (r: Result<
        Vec<LedgerCommand>,
        SmeltingError,
    >)
        ensures
            ({
                let (cmds, err) = spec_transfer(
                    state.ore_mint,
                    ctx.source_account,
                    ctx.destination_account,
                    ctx.caller,
                    ctx.caller_is_signer,
                    amount,
                );
                match (r, err) {
                    (Ok(c), None) => c@ == cmds,
                    (Err(e1), Some(e2)) => e1 == e2,
                    _ => false,
                }
            }),
    {
        if !ctx.caller_is_signer {
            return Err(SmeltingError::MissingRequiredSignature);
        }
        let mut commands: Vec<LedgerCommand> = Vec::new();
        commands.push(
            LedgerCommand::Transfer {
                token: state.ore_mint,
                from: ctx.source_account,
                to: ctx.destination_account,
                authority: ctx.caller,
                amount,
            },
        );
        Ok(commands)
    }

    /// Transfers `amount` ingots between two accounts, signed by the caller.
    pub fn process_transfer_ingot(state: &SmeltingState, ctx: &OpContext, amount: u64) -> (r:
        Result<Vec<LedgerCommand>, SmeltingError>)
        ensures
            ({
                let (cmds, err) = spec_transfer(
                    state.ingot_mint,
                    ctx.source_account,
                    ctx.destination_account,
                    ctx.caller,
                    ctx.caller_is_signer,
                    amount,
                );
                match (r, err) {
                    (Ok(c), None) => c@ == cmds,
                    (Err(e1), Some(e2)) => e1 == e2,
                    _ => false,
                }
            }),
    {
        if !ctx.caller_is_signer {
            return Err(SmeltingError::MissingRequiredSignature);
        }
        let mut commands: Vec<LedgerCommand> = Vec::new();
        commands.push(
            LedgerCommand::Transfer {
                token: state.ingot_mint,
                from: ctx.source_account,
                to: ctx.destination_account,
                authority: ctx.caller,
                amount,
            },
        );
        Ok(commands)
    }

    /// Processes one raw operation against `state`, as `spec_process` says;
    /// a well-formed record stays well formed.
    pub fn process(state: &mut SmeltingState, instruction_data: &[u8], ctx: &OpContext) -> (r:
        Result<ProcessOutcome, ProcessFailure>)
        ensures
            ({
                let (st2, cmds, res) = spec_process(*old(state), instruction_data@, *ctx);
                &&& *final(state) == st2
                &&& match (r, res) {
                    (Ok(out), Ok(ev)) => out.commands@ == cmds && out.event == ev,
                    (Err(f), Err(e)) => f.commands@ == cmds && f.error == e,
                    _ => false,
                }
            }),
            old(state).wf() ==> final(state).wf(),
    {
        let instruction = match SmeltingInstruction::unpack(instruction_data) {
            Ok(i) => i,
            Err(e) => {
                return Err(ProcessFailure { commands: Vec::new(), error: e });
            },
        };
        let amount = match instruction {
            SmeltingInstruction::Smelt { amount } => amount,
            SmeltingInstruction::Unsmelt { amount } => amount,
            SmeltingInstruction::MintIngot { amount } => amount,
            SmeltingInstruction::TransferOre { amount } => amount,
            SmeltingInstruction::TransferIngot { amount } => amount,
        };
        if amount == 0 || amount > MAX_AMOUNT {
            return Err(
                ProcessFailure { commands: Vec::new(), error: SmeltingError::InvalidInstruction },
            );
        }
        match instruction {
            SmeltingInstruction::Smelt { amount } => match Self::process_smelt(
                state,
                ctx,
                amount,
            ) {
                Ok(out) => Ok(
                    ProcessOutcome {
                        commands: out.commands,
                        event: Some(ProcessEvent::Smelt(out.event)),
                    },
                ),
                Err(f) => Err(ProcessFailure { commands: f.commands, error: f.error }),
            },
            SmeltingInstruction::Unsmelt { amount } => match Self::process_unsmelt(
                state,
                ctx,
                amount,
            ) {
                Ok(out) => Ok(
                    ProcessOutcome {
                        commands: out.commands,
                        event: Some(ProcessEvent::Unsmelt(out.event)),
                    },
                ),
                Err(e) => Err(ProcessFailure { commands: Vec::new(), error: e }),
            },
            SmeltingInstruction::MintIngot { amount } => match Self::process_mint_ingot(
                state,
                ctx,
                amount,
            ) {
                Ok(cmds) => Ok(ProcessOutcome { commands: cmds, event: None }),
                Err(e) => Err(ProcessFailure { commands: Vec::new(), error: e }),
            },
            SmeltingInstruction::TransferOre { amount } => match Self::process_transfer_ore(
                state,
                ctx,
                amount,
            ) {
                Ok(cmds) => Ok(ProcessOutcome { commands: cmds, event: None }),
                Err(e) => Err(ProcessFailure { commands: Vec::new(), error: e }),
            },
            SmeltingInstruction::TransferIngot { amount } => match Self::process_transfer_ingot(
                state,
                ctx,
                amount,
            ) {
                Ok(cmds) => Ok(ProcessOutcome { commands: cmds, event: None }),
                Err(e) => Err(ProcessFailure { commands: Vec::new(), error: e }),
            },
        }
    }
}

} // verus!
