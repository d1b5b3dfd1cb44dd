//! Threshold multi-signature governance of a market's parameters.

use vstd::prelude::*;
use crate::constants::MAX_SIGNERS;
use crate::error::SmeltingError;
use crate::identity::Identity;
use crate::state::SmeltingState;

verus! {

/// The signer roster of a market: an ordered, deduplicated set of 1 to
/// `MAX_SIGNERS` identities, a threshold, and a proposal counter.
#[derive(Clone, Debug, PartialEq, Eq)]
pub struct MultiSigAuthority {
    pub signers: Vec<Identity>,
    pub threshold: u8,
    pub nonce: u64,
}

/// The mathematical model of a roster.
pub struct MultiSigView {
    pub signers: Seq<Identity>,
    pub threshold: u8,
    pub nonce: u64,
}

impl View for MultiSigAuthority {
    type V = MultiSigView;

    open spec fn view(&self) -> MultiSigView {
        MultiSigView { signers: self.signers@, threshold: self.threshold, nonce: self.nonce }
    }
}

/// One pending parameter-change request. Each absent optional field leaves
/// the corresponding market field unchanged on execution.
#[derive(Clone, Debug, PartialEq, Eq)]
pub struct Proposal {
    pub proposed_by: Identity,
    pub new_success_rate: Option<u8>,
    pub new_minimum_coal: Option<u64>,
    pub new_cooldown_period: Option<u64>,
    pub approvals: Vec<bool>,
    pub is_executed: bool,
    pub nonce: u64,
}

/// The mathematical model of a proposal.
pub struct ProposalView {
    pub proposed_by: Identity,
    pub new_success_rate: Option<u8>,
    pub new_minimum_coal: Option<u64>,
    pub new_cooldown_period: Option<u64>,
    pub approvals: Seq<bool>,
    pub is_executed: bool,
    pub nonce: u64,
}

impl View for Proposal {
    type V = ProposalView;

    open spec fn view(&self) -> ProposalView {
        ProposalView {
            proposed_by: self.proposed_by,
            new_success_rate: self.new_success_rate,
            new_minimum_coal: self.new_minimum_coal,
            new_cooldown_period: self.new_cooldown_period,
            approvals: self.approvals@,
            is_executed: self.is_executed,
            nonce: self.nonce,
        }
    }
}

/// No identity appears twice.
pub open spec fn distinct_identities(s: Seq<Identity>) -> bool {
    forall|i: int, j: int| 0 <= i < j < s.len() ==> s[i] != s[j]
}

/// Whether `who` is a member of the roster.
pub open spec fn spec_is_signer(signers: Seq<Identity>, who: Identity) -> bool {
    exists|i: int| 0 <= i < signers.len() && signers[i] == who
}

/// The roster slot `who` occupies; meaningful when `spec_is_signer` holds
/// and the roster is deduplicated.
pub open spec fn signer_slot(signers: Seq<Identity>, who: Identity) -> int {
    choose|i: int| 0 <= i < signers.len() && signers[i] == who
}

/// How many slots are set.
pub open spec fn count_true(s: Seq<bool>) -> int
    decreases s.len(),
{
    if s.len() == 0 {
        0
    } else {
        count_true(s.drop_last()) + if s.last() {
            1int
        } else {
            0int
        }
    }
}

impl MultiSigView {
    /// A roster is well formed when the threshold is reachable and the
    /// signers are a deduplicated set of at most `MAX_SIGNERS`.
    pub open spec fn wf(self) -> bool {
        &&& 1 <= self.threshold as int <= self.signers.len()
        &&& self.signers.len() <= MAX_SIGNERS
        &&& distinct_identities(self.signers)
    }
}

impl ProposalView {
    /// A proposal carries one approval slot per roster member.
    pub open spec fn compatible_with(self, ms: MultiSigView) -> bool {
        self.approvals.len() == ms.signers.len()
    }

    /// The stored optional values respect the bounds execution enforces.
    pub open spec fn values_valid(self) -> bool {
        &&& (match self.new_success_rate {
            Some(r) => r <= 100,
            None => true,
        })
        &&& (match self.new_minimum_coal {
            Some(c) => c > 0,
            None => true,
        })
    }
}

/// What an approval does: reject an executed proposal, an outside signer
/// and a repeated approval; otherwise set the caller's slot, and the moment
/// the set slots reach the threshold validate every stored value and apply
/// them all to the market record, marking the proposal executed — all of it
/// in one atomic step, or none of it on a validation failure.
pub open spec fn spec_approve(
    ms: MultiSigView,
    p: ProposalView,
    st: SmeltingState,
    signer: Identity,
) -> Result<(ProposalView, SmeltingState, bool), SmeltingError> {
    if p.is_executed {
        Err(SmeltingError::ProposalAlreadyExecuted)
    } else if !spec_is_signer(ms.signers, signer) {
        Err(SmeltingError::UnauthorizedSigner)
    } else {
        let slot = signer_slot(ms.signers, signer);
        if p.approvals[slot] {
            Err(SmeltingError::AlreadyApproved)
        } else {
            let approvals2 = p.approvals.update(slot, true);
            if count_true(approvals2) >= ms.threshold {
                if (match p.new_success_rate {
                    Some(r) => r > 100,
                    None => false,
                }) {
                    Err(SmeltingError::InvalidSmeltingSuccessRate)
                } else if (match p.new_minimum_coal {
                    Some(c) => c == 0,
                    None => false,
                }) {
                    Err(SmeltingError::InvalidAmount)
                } else {
                    let st2 = SmeltingState {
                        success_rate: match p.new_success_rate {
                            Some(r) => r,
                            None => st.success_rate,
                        },
                        minimum_coal_amount: match p.new_minimum_coal {
                            Some(c) => c,
                            None => st.minimum_coal_amount,
                        },
                        cooldown_period: match p.new_cooldown_period {
                            Some(cd) => cd,
                            None => st.cooldown_period,
                        },
                        ..st
                    };
                    Ok((ProposalView { approvals: approvals2, is_executed: true, ..p }, st2, true))
                }
            } else {
                Ok((ProposalView { approvals: approvals2, ..p }, st, false))
            }
        }
    }
}

/// Builds the signer roster a market is governed by and records its
/// identity in the market. The roster must have a positive threshold, at
/// least that many signers, at most `MAX_SIGNERS`, and no duplicates.
#[verifier::loop_isolation(false)]
pub fn initialize_multi_sig(
    state: &mut SmeltingState,
    multi_sig_id: Identity,
    signers: Vec<Identity>,
    threshold: u8,
) -> (r: Result<MultiSigAuthority, SmeltingError>)
    ensures
        match r {
            Ok(ms) => {
                &&& threshold > 0
                &&& signers@.len() >= threshold
                &&& signers@.len() <= MAX_SIGNERS
                &&& distinct_identities(signers@)
                &&& ms@.signers == signers@
                &&& ms@.threshold == threshold
                &&& ms@.nonce == 0
                &&& ms@.wf()
                &&& *final(state) == (SmeltingState {
                    multi_sig_authority: multi_sig_id,
                    ..*old(state)
                })
            },
            Err(e) => *final(state) == *old(state) && ((e == SmeltingError::InvalidThreshold
                && threshold == 0) || (e == SmeltingError::InvalidSignerCount && threshold > 0
                && signers@.len() < threshold) || (e == SmeltingError::TooManySigners && threshold
                > 0 && signers@.len() >= threshold && signers@.len() > MAX_SIGNERS) || (e
                == SmeltingError::InvalidSignerCount && threshold > 0 && signers@.len()
                >= threshold && signers@.len() <= MAX_SIGNERS && !distinct_identities(signers@))),
        },
{
    if threshold == 0 {
        return Err(SmeltingError::InvalidThreshold);
    }
    if signers.len() < threshold as usize {
        return Err(SmeltingError::InvalidSignerCount);
    }
    if signers.len() > MAX_SIGNERS {
        return Err(SmeltingError::TooManySigners);
    }
    let mut i: usize = 0;
    while i < signers.len()
        invariant
            i <= signers@.len(),
            forall|a: int, b: int| 0 <= a < b < i ==> signers@[a] != signers@[b],
        decreases signers@.len() - i,
    {
        let mut j: usize = 0;
        while j < i
            invariant
                j <= i < signers@.len(),
                forall|a: int, b: int| 0 <= a < b < i ==> signers@[a] != signers@[b],
                forall|b: int| 0 <= b < j ==> signers@[b] != signers@[i as int],
            decreases i - j,
        {
            if signers[j] == signers[i] {
                proof {
                    let a = j as int;
                    let b = i as int;
                    assert(signers@[a] == signers@[b]);
                    assert(0 <= a && a < b && b < signers@.len());
                    assert(!distinct_identities(signers@));
                }
                return Err(SmeltingError::InvalidSignerCount);
            }
            j = j + 1;
        }
        i = i + 1;
    }
    state.multi_sig_authority = multi_sig_id;
    Ok(MultiSigAuthority { signers, threshold, nonce: 0 })
}

/// Creates a proposal: the proposer must be a roster member; the approval
/// slots start all clear; the roster's nonce is recorded in the proposal
/// and then incremented.
#[verifier::loop_isolation(false)]
pub fn propose_parameter_update(
    multi_sig: &mut MultiSigAuthority,
    proposer: Identity,
    new_success_rate: Option<u8>,
    new_minimum_coal: Option<u64>,
    new_cooldown_period: Option<u64>,
) -> (r: Result<Proposal, SmeltingError>)
    requires
        old(multi_sig)@.nonce < u64::MAX,
    ensures
        match r {
            Ok(p) => {
                &&& spec_is_signer(old(multi_sig)@.signers, proposer)
                &&& p@.proposed_by == proposer
                &&& p@.new_success_rate == new_success_rate
                &&& p@.new_minimum_coal == new_minimum_coal
                &&& p@.new_cooldown_period == new_cooldown_period
                &&& p@.approvals == Seq::new(old(multi_sig)@.signers.len(), |i: int| false)
                &&& !p@.is_executed
                &&& p@.nonce == old(multi_sig)@.nonce
                &&& final(multi_sig)@.signers == old(multi_sig)@.signers
                &&& final(multi_sig)@.threshold == old(multi_sig)@.threshold
                &&& final(multi_sig)@.nonce == old(multi_sig)@.nonce + 1
            },
            Err(e) => e == SmeltingError::UnauthorizedProposer && !spec_is_signer(
                old(multi_sig)@.signers,
                proposer,
            ) && *final(multi_sig) == *old(multi_sig),
        },
{
    let mut found = false;
    let mut i: usize = 0;
    while i < multi_sig.signers.len()
        invariant
            i <= multi_sig@.signers.len(),
            found == exists|j: int| 0 <= j < i && multi_sig@.signers[j] == proposer,
        decreases multi_sig@.signers.len() - i,
    {
        if multi_sig.signers[i] == proposer {
            found = true;
        }
        i = i + 1;
    }
    if !found {
        return Err(SmeltingError::UnauthorizedProposer);
    }
    let n = multi_sig.signers.len();
    let mut approvals: Vec<bool> = Vec::new();
    let mut k: usize = 0;
    while k < n
        invariant
            k <= n,
            approvals@ =~= Seq::new(k as nat, |i: int| false),
        decreases n - k,
    {
        approvals.push(false);
        proof {
            assert(approvals@ =~= Seq::new((k + 1) as nat, |i: int| false));
        }
        k = k + 1;
    }
    let nonce = multi_sig.nonce;
    multi_sig.nonce = multi_sig.nonce + 1;
    proof {
        assert(approvals@ =~= Seq::new(multi_sig@.signers.len(), |i: int| false));
    }
    Ok(
        Proposal {
            proposed_by: proposer,
            new_success_rate,
            new_minimum_coal,
            new_cooldown_period,
            approvals,
            is_executed: false,
            nonce,
        },
    )
}

/// Records one signer's approval on `proposal` and executes the proposal
/// against `state` the moment the threshold is reached, as `spec_approve`
/// says; a well-formed market record stays well formed.
#[verifier::loop_isolation(false)]
pub fn approve_parameter_update(
    multi_sig: &MultiSigAuthority,
    proposal: &mut Proposal,
    state: &mut SmeltingState,
    signer: Identity,
) -> (r: Result<bool, SmeltingError>)
    requires
        multi_sig@.wf(),
        old(proposal)@.compatible_with(multi_sig@),
    ensures
        ({
            let res = spec_approve(multi_sig@, old(proposal)@, *old(state), signer);
            match r {
                Ok(executed) => res == Ok::<(ProposalView, SmeltingState, bool), SmeltingError>(
                    (final(proposal)@, *final(state), executed),
                ),
                Err(e) => res == Err::<(ProposalView, SmeltingState, bool), SmeltingError>(e)
                    && final(proposal)@ == old(proposal)@ && *final(state) == *old(state),
            }
        }),
        old(state).wf() ==> final(state).wf(),
{
    if proposal.is_executed {
        return Err(SmeltingError::ProposalAlreadyExecuted);
    }
    let mut slot: usize = 0;
    let mut found = false;
    let mut i: usize = 0;
    while i < multi_sig.signers.len()
        invariant
            i <= multi_sig@.signers.len(),
            !found ==> forall|j: int| 0 <= j < i ==> multi_sig@.signers[j] != signer,
            found ==> slot < i && multi_sig@.signers[slot as int] == signer,
        decreases multi_sig@.signers.len() - i,
    {
        if !found && multi_sig.signers[i] == signer {
            found = true;
            slot = i;
        }
        i = i + 1;
    }
    if !found {
        return Err(SmeltingError::UnauthorizedSigner);
    }
    proof {
        assert(spec_is_signer(multi_sig@.signers, signer));
        let s = signer_slot(multi_sig@.signers, signer);
        assert(0 <= s < multi_sig@.signers.len() && multi_sig@.signers[s] == signer);
        assert(s == slot as int);
    }
    if proposal.approvals[slot] {
        return Err(SmeltingError::AlreadyApproved);
    }
    let ghost approvals_before = proposal.approvals@;
    proposal.approvals.set(slot, true);
    proof {
        assert(proposal.approvals@ =~= approvals_before.update(slot as int, true));
    }
    let approved = count_approvals(&proposal.approvals);
    if approved >= multi_sig.threshold as usize {
        if let Some(rate) = proposal.new_success_rate {
            if rate > 100 {
                proposal.approvals.set(slot, false);
                proof {
                    assert(proposal.approvals@ =~= approvals_before);
                }
                return Err(SmeltingError::InvalidSmeltingSuccessRate);
            }
        }
        if let Some(coal) = proposal.new_minimum_coal {
            if coal == 0 {
                proposal.approvals.set(slot, false);
                proof {
                    assert(proposal.approvals@ =~= approvals_before);
                }
                return Err(SmeltingError::InvalidAmount);
            }
        }
        if let Some(rate) = proposal.new_success_rate {
            state.success_rate = rate;
        }
        if let Some(coal) = proposal.new_minimum_coal {
            state.minimum_coal_amount = coal;
        }
        if let Some(period) = proposal.new_cooldown_period {
            state.cooldown_period = period;
        }
        proposal.is_executed = true;
        Ok(true)
    } else {
        Ok(false)
    }
}

/// How many of the proposal's slots are set.
#[verifier::loop_isolation(false)]
pub fn count_approvals(approvals: &Vec<bool>) -> (r: usize)
    ensures
        r == count_true(approvals@),
        r <= approvals@.len(),
{
    let mut r: usize = 0;
    let mut i: usize = 0;
    while i < approvals.len()
        invariant
            i <= approvals@.len(),
            r == count_true(approvals@.subrange(0, i as int)),
            r <= i,
        decreases approvals@.len() - i,
    {
        proof {
            let pre = approvals@.subrange(0, i as int);
            let post = approvals@.subrange(0, i + 1);
            assert(post.drop_last() =~= pre);
            assert(post.last() == approvals@[i as int]);
        }
        if approvals[i] {
            r = r + 1;
        }
        i = i + 1;
    }
    proof {
        assert(approvals@.subrange(0, approvals@.len() as int) =~= approvals@);
    }
    r
}

} // verus!
