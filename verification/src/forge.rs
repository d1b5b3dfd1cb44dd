//! The conversion engine: initialize a market, smelt ore, unsmelt ingots.

use vstd::prelude::*;
use crate::constants::{MAX_AMOUNT, MAX_INGOT_SUPPLY};
use crate::error::SmeltingError;
use crate::identity::Identity;
use crate::ledger::{LedgerCommand, SmeltEvent, SmeltingFailed, SmeltingSuccessful,
    UnsmeltingSuccessful};
use crate::state::{SmeltingState, checked_convert, sat_add_u64, sat_sub_u64, spec_convert,
    spec_unsmelt_fee};

verus! {

/// The token accounts a smelt touches, as the host resolved them.
#[derive(Clone, Copy, Debug, PartialEq, Eq, Structural)]
pub struct SmeltAccounts {
    /// The caller, owner of the three user token accounts.
    pub user_authority: Identity,
    pub user_ore_account: Identity,
    pub user_coal_account: Identity,
    pub user_ingot_account: Identity,
}

/// The token accounts an unsmelt touches.
#[derive(Clone, Copy, Debug, PartialEq, Eq, Structural)]
pub struct UnsmeltAccounts {
    /// The caller, owner of the two user token accounts.
    pub user_authority: Identity,
    pub user_ore_account: Identity,
    pub user_ingot_account: Identity,
}

/// Facts only the host knows at the moment an operation runs.
#[derive(Clone, Copy, Debug, PartialEq, Eq, Structural)]
pub struct HostEnv {
    /// The current time, in seconds.
    pub now: u64,
    /// The seed byte the success draw is decided by.
    pub seed_byte: u8,
    /// The caller's balance in the native fee currency.
    pub caller_lamports: u64,
    /// The floor that balance must strictly exceed.
    pub minimum_balance: u64,
}

/// The ledger calls and the event of an accepted smelt attempt.
#[derive(Clone, Debug, PartialEq, Eq)]
pub struct SmeltOutcome {
    pub commands: Vec<LedgerCommand>,
    pub event: SmeltEvent,
}

/// A rejected smelt attempt: the error, and the ledger calls already owed.
/// A supply-cap rejection arrives after the coal burn, which stands.
#[derive(Clone, Debug, PartialEq, Eq)]
pub struct SmeltFailure {
    pub commands: Vec<LedgerCommand>,
    pub error: SmeltingError,
}

/// The ledger calls and the event of a completed unsmelt.
#[derive(Clone, Debug, PartialEq, Eq)]
pub struct UnsmeltOutcome {
    pub commands: Vec<LedgerCommand>,
    pub event: UnsmeltingSuccessful,
}

/// A draw with `seed_byte` succeeds when the byte lies below
/// `rate * 256 / 100`, so success has probability about `rate` percent over
/// a uniform byte; rate 0 never succeeds and rate 100 always does.
pub open spec fn smelt_succeeds(seed_byte: u8, rate: u8) -> bool {
    (seed_byte as int) < rate * 256 / 100
}

/// Decides a smelt draw from the seed byte and the configured rate.
pub fn draw_is_success(seed_byte: u8, rate: u8) -> (b: bool)
    ensures
        b == smelt_succeeds(seed_byte, rate),
{
    (seed_byte as u16) < (rate as u16 * 256) / 100
}

/// The error a smelt attempt is rejected with before it owes any ledger
/// call, if any: the reentrancy latch, the amount bounds, the coal minimum,
/// the cooldown, then the fee-currency floor.
pub open spec fn spec_smelt_error(
    st: SmeltingState,
    ore_amount: u64,
    coal_amount: u64,
    env: HostEnv,
) -> Option<SmeltingError> {
    if st.is_processing {
        Some(SmeltingError::ReentrancyDetected)
    } else if ore_amount == 0 || ore_amount > MAX_AMOUNT {
        Some(SmeltingError::InvalidAmount)
    } else if coal_amount == 0 || coal_amount > MAX_AMOUNT {
        Some(SmeltingError::InvalidAmount)
    } else if coal_amount < st.minimum_coal_amount {
        Some(SmeltingError::InsufficientCoal)
    } else if (env.now as int) < st.last_operation_time + st.cooldown_period {
        Some(SmeltingError::CooldownNotMet)
    } else if env.caller_lamports <= env.minimum_balance {
        Some(SmeltingError::InsufficientFunds)
    } else {
        None
    }
}

/// What a smelt attempt does: the updated record, the ledger calls in
/// order, and the event or error. Once the preconditions pass the coal burn
/// is owed unconditionally; a successful draw then locks the ore and mints
/// the decimals-adjusted ingot amount, unless that would pass the supply
/// cap, in which case the attempt fails `MaxSupplyExceeded` with the coal
/// already spent. The last-operation time advances on every accepted
/// attempt and the latch is clear again on every exit.
pub open spec fn spec_smelt(
    st: SmeltingState,
    acc: SmeltAccounts,
    ore_amount: u64,
    coal_amount: u64,
    env: HostEnv,
) -> (SmeltingState, Seq<LedgerCommand>, Result<SmeltEvent, SmeltingError>) {
    match spec_smelt_error(st, ore_amount, coal_amount, env) {
        Some(e) => (st, Seq::empty(), Err(e)),
        None => {
            let burn = LedgerCommand::Burn {
                token: st.coal_mint,
                from: acc.user_coal_account,
                authority: acc.user_authority,
                amount: coal_amount,
            };
            let st1 = SmeltingState { last_operation_time: env.now, ..st };
            if !smelt_succeeds(env.seed_byte, st.success_rate) {
                (
                    st1,
                    seq![burn],
                    Ok(
                        SmeltEvent::Failed(
                            SmeltingFailed { user: acc.user_authority, coal_amount },
                        ),
                    ),
                )
            } else {
                let minted = spec_convert(ore_amount, st.ore_decimals, st.ingot_decimals);
                if st.total_ingots_minted + minted > MAX_INGOT_SUPPLY {
                    (st1, seq![burn], Err(SmeltingError::MaxSupplyExceeded))
                } else {
                    let transfer = LedgerCommand::Transfer {
                        token: st.ore_mint,
                        from: acc.user_ore_account,
                        to: st.ore_vault,
                        authority: acc.user_authority,
                        amount: ore_amount,
                    };
                    let mint = LedgerCommand::Mint {
                        token: st.ingot_mint,
                        to: acc.user_ingot_account,
                        mint_authority: st.authority,
                        amount: minted as u64,
                    };
                    let st2 = SmeltingState {
                        total_ingots_minted: (st.total_ingots_minted + minted) as u64,
                        total_ore_locked: sat_add_u64(
                            st.total_ore_locked as int,
                            ore_amount as int,
                        ) as u64,
                        last_operation_time: env.now,
                        ..st
                    };
                    (
                        st2,
                        seq![burn, transfer, mint],
                        Ok(
                            SmeltEvent::Successful(
                                SmeltingSuccessful {
                                    user: acc.user_authority,
                                    ore_amount,
                                    coal_amount,
                                    ingot_amount: minted as u64,
                                },
                            ),
                        ),
                    )
                }
            }
        },
    }
}

/// Builds an initialized market record, rejecting a success rate above 100
/// and a zero coal minimum.
pub fn initialize(
    authority: Identity,
    authority_bump: u8,
    ore_mint: Identity,
    ingot_mint: Identity,
    coal_mint: Identity,
    ore_vault: Identity,
    ore_decimals: u8,
    ingot_decimals: u8,
    coal_decimals: u8,
    smelting_success_rate: u8,
    minimum_coal_amount: u64,
    cooldown_period: u64,
) -> (r: Result<SmeltingState, SmeltingError>)
    ensures
        match r {
            Ok(st) => smelting_success_rate <= 100 && minimum_coal_amount > 0 && st == (
            SmeltingState {
                is_initialized: true,
                authority,
                authority_bump,
                ore_mint,
                ingot_mint,
                coal_mint,
                ore_vault,
                total_ingots_minted: 0u64,
                total_ore_locked: 0u64,
                ore_decimals,
                ingot_decimals,
                coal_decimals,
                success_rate: smelting_success_rate,
                minimum_coal_amount,
                cooldown_period,
                last_operation_time: 0u64,
                is_processing: false,
                multi_sig_authority: Identity { w0: 0u64, w1: 0u64, w2: 0u64, w3: 0u64 },
            }) && st.wf(),
            Err(e) => (e == SmeltingError::InvalidSmeltingSuccessRate && smelting_success_rate
                > 100) || (e == SmeltingError::InvalidAmount && smelting_success_rate <= 100
                && minimum_coal_amount == 0),
        },
{
    if smelting_success_rate > 100 {
        return Err(SmeltingError::InvalidSmeltingSuccessRate);
    }
    if minimum_coal_amount == 0 {
        return Err(SmeltingError::InvalidAmount);
    }
    Ok(
        SmeltingState {
            is_initialized: true,
            authority,
            authority_bump,
            ore_mint,
            ingot_mint,
            coal_mint,
            ore_vault,
            total_ingots_minted: 0,
            total_ore_locked: 0,
            ore_decimals,
            ingot_decimals,
            coal_decimals,
            success_rate: smelting_success_rate,
            minimum_coal_amount,
            cooldown_period,
            last_operation_time: 0,
            is_processing: false,
            multi_sig_authority: Identity::zero(),
        },
    )
}

/// Attempts a forward conversion against `state`, as `spec_smelt` says.
/// The latch is set for the span of the attempt and clear again on every
/// exit; a well-formed record stays well formed.
pub fn smelt(
    state: &mut SmeltingState,
    acc: &SmeltAccounts,
    ore_amount: u64,
    coal_amount: u64,
    env: &HostEnv,
) -> (r: Result<SmeltOutcome, SmeltFailure>)
    ensures
        ({
            let (st2, cmds, res) = spec_smelt(*old(state), *acc, ore_amount, coal_amount, *env);
            &&& *final(state) == st2
            &&& match (r, res) {
                (Ok(out), Ok(ev)) => out.commands@ == cmds && out.event == ev,
                (Err(f), Err(e)) => f.commands@ == cmds && f.error == e,
                _ => false,
            }
        }),
        old(state).wf() ==> final(state).wf(),
{
    if state.is_processing {
        return Err(
            SmeltFailure { commands: Vec::new(), error: SmeltingError::ReentrancyDetected },
        );
    }
    if ore_amount == 0 || ore_amount > MAX_AMOUNT {
        return Err(SmeltFailure { commands: Vec::new(), error: SmeltingError::InvalidAmount });
    }
    if coal_amount == 0 || coal_amount > MAX_AMOUNT {
        return Err(SmeltFailure { commands: Vec::new(), error: SmeltingError::InvalidAmount });
    }
    if coal_amount < state.minimum_coal_amount {
        return Err(SmeltFailure { commands: Vec::new(), error: SmeltingError::InsufficientCoal });
    }
    let cooldown_met = match state.last_operation_time.checked_add(state.cooldown_period) {
        Some(t) => env.now >= t,
        None => false,
    };
    if !cooldown_met {
        return Err(SmeltFailure { commands: Vec::new(), error: SmeltingError::CooldownNotMet });
    }
    if env.caller_lamports <= env.minimum_balance {
        return Err(SmeltFailure { commands: Vec::new(), error: SmeltingError::InsufficientFunds });
    }
    state.is_processing = true;
    let mut commands: Vec<LedgerCommand> = Vec::new();
    commands.push(
        LedgerCommand::Burn {
            token: state.coal_mint,
            from: acc.user_coal_account,
            authority: acc.user_authority,
            amount: coal_amount,
        },
    );
    let success = draw_is_success(env.seed_byte, state.success_rate);
    if !success {
        state.last_operation_time = env.now;
        state.is_processing = false;
        return Ok(
            SmeltOutcome {
                commands,
                event: SmeltEvent::Failed(
                    SmeltingFailed { user: acc.user_authority, coal_amount },
                ),
            },
        );
    }
    let (cap_ok, minted) = match checked_convert(ore_amount, state.ore_decimals,
        state.ingot_decimals) {
        Some(m) => (state.can_mint_ingot(m), m),
        None => (false, 0),
    };
    if !cap_ok {
        state.last_operation_time = env.now;
        state.is_processing = false;
        return Err(SmeltFailure { commands, error: SmeltingError::MaxSupplyExceeded });
    }
    commands.push(
        LedgerCommand::Transfer {
            token: state.ore_mint,
            from: acc.user_ore_account,
            to: state.ore_vault,
            authority: acc.user_authority,
            amount: ore_amount,
        },
    );
    commands.push(
        LedgerCommand::Mint {
            token: state.ingot_mint,
            to: acc.user_ingot_account,
            mint_authority: state.authority,
            amount: minted,
        },
    );
    match state.update_on_successful_smelt(ore_amount) {
        Ok(()) => {},
        Err(_) => {
            proof {
                assert(false);
            }
        },
    }
    state.last_operation_time = env.now;
    state.is_processing = false;
    Ok(
        SmeltOutcome {
            commands,
            event: SmeltEvent::Successful(
                SmeltingSuccessful {
                    user: acc.user_authority,
                    ore_amount,
                    coal_amount,
                    ingot_amount: minted,
                },
            ),
        },
    )
}

/// The error an unsmelt is rejected with, if any: the latch, the amount
/// bounds, the caller's ingot balance, the vault's ore balance against the
/// amount to be returned, then the fee-currency floor.
pub open spec fn spec_unsmelt_error(
    st: SmeltingState,
    ingot_amount: u64,
    user_ingot_balance: u64,
    vault_ore_balance: u64,
    env: HostEnv,
) -> Option<SmeltingError> {
    if st.is_processing {
        Some(SmeltingError::ReentrancyDetected)
    } else if ingot_amount == 0 || ingot_amount > MAX_AMOUNT {
        Some(SmeltingError::InvalidAmount)
    } else if user_ingot_balance < ingot_amount {
        Some(SmeltingError::InsufficientIngot)
    } else if (vault_ore_balance as int) < ingot_amount - spec_unsmelt_fee(ingot_amount) {
        Some(SmeltingError::InsufficientProgramOre)
    } else if env.caller_lamports <= env.minimum_balance {
        Some(SmeltingError::InsufficientFunds)
    } else {
        None
    }
}

/// What an unsmelt does: burn the ingots, return the amount minus the fee
/// from the vault under the market's authority, shrink the minted total by
/// the amount (floored at zero), and shrink the locked total the same way
/// before growing it by the retained fee.
pub open spec fn spec_unsmelt(
    st: SmeltingState,
    acc: UnsmeltAccounts,
    ingot_amount: u64,
    user_ingot_balance: u64,
    vault_ore_balance: u64,
    env: HostEnv,
) -> (SmeltingState, Seq<LedgerCommand>, Result<UnsmeltingSuccessful, SmeltingError>) {
    match spec_unsmelt_error(st, ingot_amount, user_ingot_balance, vault_ore_balance, env) {
        Some(e) => (st, Seq::empty(), Err(e)),
        None => {
            let fee = spec_unsmelt_fee(ingot_amount);
            let ore_returned = ingot_amount - fee;
            let burn = LedgerCommand::Burn {
                token: st.ingot_mint,
                from: acc.user_ingot_account,
                authority: acc.user_authority,
                amount: ingot_amount,
            };
            let transfer = LedgerCommand::Transfer {
                token: st.ore_mint,
                from: st.ore_vault,
                to: acc.user_ore_account,
                authority: st.authority,
                amount: ore_returned as u64,
            };
            let st2 = SmeltingState {
                total_ingots_minted: sat_sub_u64(
                    st.total_ingots_minted as int,
                    ingot_amount as int,
                ) as u64,
                total_ore_locked: sat_add_u64(
                    sat_sub_u64(st.total_ore_locked as int, ingot_amount as int),
                    fee,
                ) as u64,
                ..st
            };
            (
                st2,
                seq![burn, transfer],
                Ok(
                    UnsmeltingSuccessful {
                        user: acc.user_authority,
                        ingot_amount,
                        ore_amount: ore_returned as u64,
                    },
                ),
            )
        },
    }
}

/// Reverses a conversion against `state`, as `spec_unsmelt` says. A
/// well-formed record stays well formed, and the minted total never grows.
pub fn unsmelt(
    state: &mut SmeltingState,
    acc: &UnsmeltAccounts,
    ingot_amount: u64,
    user_ingot_balance: u64,
    vault_ore_balance: u64,
    env: &HostEnv,
) -> (r: Result<UnsmeltOutcome, SmeltingError>)
    ensures
        ({
            let (st2, cmds, res) = spec_unsmelt(
                *old(state),
                *acc,
                ingot_amount,
                user_ingot_balance,
                vault_ore_balance,
                *env,
            );
            &&& *final(state) == st2
            &&& match (r, res) {
                (Ok(out), Ok(ev)) => out.commands@ == cmds && out.event == ev,
                (Err(e1), Err(e2)) => e1 == e2,
                _ => false,
            }
        }),
        old(state).wf() ==> final(state).wf(),
        final(state).total_ingots_minted <= old(state).total_ingots_minted,
{
    if state.is_processing {
        return Err(SmeltingError::ReentrancyDetected);
    }
    if ingot_amount == 0 || ingot_amount > MAX_AMOUNT {
        return Err(SmeltingError::InvalidAmount);
    }
    if user_ingot_balance < ingot_amount {
        return Err(SmeltingError::InsufficientIngot);
    }
    let fee = SmeltingState::calculate_unsmelt_fee(ingot_amount);
    let ore_returned = ingot_amount - fee;
    if vault_ore_balance < ore_returned {
        return Err(SmeltingError::InsufficientProgramOre);
    }
    if env.caller_lamports <= env.minimum_balance {
        return Err(SmeltingError::InsufficientFunds);
    }
    state.is_processing = true;
    let mut commands: Vec<LedgerCommand> = Vec::new();
    commands.push(
        LedgerCommand::Burn {
            token: state.ingot_mint,
            from: acc.user_ingot_account,
            authority: acc.user_authority,
            amount: ingot_amount,
        },
    );
    commands.push(
        LedgerCommand::Transfer {
            token: state.ore_mint,
            from: state.ore_vault,
            to: acc.user_ore_account,
            authority: state.authority,
            amount: ore_returned,
        },
    );
    state.update_on_unsmelt(ingot_amount, fee);
    state.is_processing = false;
    Ok(
        UnsmeltOutcome {
            commands,
            event: UnsmeltingSuccessful {
                user: acc.user_authority,
                ingot_amount,
                ore_amount: ore_returned,
            },
        },
    )
}

} // verus!
