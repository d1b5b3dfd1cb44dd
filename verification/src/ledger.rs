//! What the engine asks of the token ledger, and what it reports back.

use vstd::prelude::*;
use crate::identity::Identity;

verus! {

/// One call the host must make to the token ledger, in the order returned.
/// The ledger executes each atomically and may itself fail on balances it
/// alone knows; such failures propagate unchanged as the operation's error.
#[derive(Clone, Copy, Debug, PartialEq, Eq, Structural)]
pub enum LedgerCommand {
    /// Destroy `amount` units of `token` held by `from`, authorized by
    /// `authority`.
    Burn { token: Identity, from: Identity, authority: Identity, amount: u64 },
    /// Move `amount` units of `token` from `from` to `to`, authorized by
    /// `authority`.
    Transfer { token: Identity, from: Identity, to: Identity, authority: Identity, amount: u64 },
    /// Create `amount` units of `token` in `to`, authorized by
    /// `mint_authority`.
    Mint { token: Identity, to: Identity, mint_authority: Identity, amount: u64 },
}

/// A smelt attempt succeeded: ore was locked and ingots were minted.
#[derive(Clone, Copy, Debug, PartialEq, Eq, Structural)]
pub struct SmeltingSuccessful {
    pub user: Identity,
    pub ore_amount: u64,
    pub coal_amount: u64,
    pub ingot_amount: u64,
}

/// A smelt attempt failed its draw: the coal is burned, nothing is minted.
#[derive(Clone, Copy, Debug, PartialEq, Eq, Structural)]
pub struct SmeltingFailed {
    pub user: Identity,
    pub coal_amount: u64,
}

/// An unsmelt completed: ingots were burned and ore returned, less the fee.
#[derive(Clone, Copy, Debug, PartialEq, Eq, Structural)]
pub struct UnsmeltingSuccessful {
    pub user: Identity,
    pub ingot_amount: u64,
    pub ore_amount: u64,
}

/// A proposal was created by `proposer`.
#[derive(Clone, Copy, Debug, PartialEq, Eq, Structural)]
pub struct ProposalCreated {
    pub proposal: Identity,
    pub proposer: Identity,
}

/// A signer's approval was recorded on `proposal`.
#[derive(Clone, Copy, Debug, PartialEq, Eq, Structural)]
pub struct ProposalApproved {
    pub proposal: Identity,
    pub signer: Identity,
}

/// A proposal reached its threshold and was applied.
#[derive(Clone, Copy, Debug, PartialEq, Eq, Structural)]
pub struct ProposalExecuted {
    pub proposal: Identity,
}

/// The outcome a smelt attempt reports once its preconditions pass.
#[derive(Clone, Copy, Debug, PartialEq, Eq, Structural)]
pub enum SmeltEvent {
    Successful(SmeltingSuccessful),
    Failed(SmeltingFailed),
}

} // verus!
