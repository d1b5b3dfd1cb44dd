//! The one error taxonomy every operation reports from.

use vstd::prelude::*;

verus! {

/// Every way an operation of the engine can fail. Each operation's contract
/// says exactly which inputs produce which variant.
#[derive(Clone, Copy, Debug, PartialEq, Eq, Structural)]
pub enum SmeltingError {
    /// An amount parameter was zero or above `MAX_AMOUNT`.
    InvalidAmount,
    /// A raw operation could not be decoded: unknown tag or wrong payload size.
    InvalidInstruction,
    /// A stored record's byte image has the wrong length.
    InvalidAccountData,
    /// A stored record was read before it was initialized.
    UninitializedAccount,
    /// The token ledger reported a balance too low for a call the engine
    /// asked of it; the host maps such failures to this kind.
    InsufficientBalance,
    /// The coal offered for a smelt is below the market's minimum.
    InsufficientCoal,
    /// The caller's ingot balance cannot cover the unsmelt amount.
    InsufficientIngot,
    /// The market's ore vault cannot cover the ore to be returned.
    InsufficientProgramOre,
    /// The caller's fee-currency balance is at or below the required floor.
    InsufficientFunds,
    /// Minting would push the ingot supply over `MAX_INGOT_SUPPLY`.
    MaxSupplyExceeded,
    /// The cooldown since the last accepted smelt has not elapsed.
    CooldownNotMet,
    /// The caller did not present a required authorization proof.
    MissingRequiredSignature,
    /// The caller is authenticated but is not the permitted identity.
    Unauthorized,
    /// The non-reentrancy latch was set when the operation began.
    ReentrancyDetected,
    /// A success rate above 100 was supplied.
    InvalidSmeltingSuccessRate,
    /// A multi-signature threshold of zero was supplied.
    InvalidThreshold,
    /// The signer roster is smaller than the threshold, or holds a duplicate.
    InvalidSignerCount,
    /// The signer roster is larger than `MAX_SIGNERS`.
    TooManySigners,
    /// The proposer is not a member of the signer roster.
    UnauthorizedProposer,
    /// The approver is not a member of the signer roster.
    UnauthorizedSigner,
    /// The approver's slot for this proposal is already set.
    AlreadyApproved,
    /// The proposal has already been executed.
    ProposalAlreadyExecuted,
}

} // verus!
