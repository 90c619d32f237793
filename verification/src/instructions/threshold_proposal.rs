//! Changing the threshold by a vote of the voters: create, vote, execute.

use vstd::prelude::*;
use crate::errors::TeamWalletError;
use crate::pubkey::{Pubkey, contains_key, without, lemma_without_no_dup, lemma_distinct_subset_len};
use crate::state::team_wallet::{TeamWallet, required_votes, votes_required};
use crate::state::threshold_proposal::ThresholdProposal;

verus! {

/// Why proposing the threshold `new_threshold` is refused.
pub open spec fn create_threshold_error(w: TeamWallet, new_threshold: u8) -> Option<TeamWalletError> {
    if new_threshold < 1 || new_threshold > 100 {
        Some(TeamWalletError::InvalidThreshold)
    } else {
        None
    }
}

/// Proposes the threshold `new_threshold`, made by the owner (the signer, whom the account
/// checks hold to the wallet's owner), whose vote counts for it at
/// once. The snapshot is the owner followed by the other voters. The proposal is created at
/// `now` and expires a week later.
pub fn create_threshold_proposal(
    team_wallet: &TeamWallet,
    team_wallet_key: Pubkey,
    new_threshold: u8,
    nonce: Pubkey,
    now: i64,
    bump: u8,
) -> (r: Result<ThresholdProposal, TeamWalletError>)
    requires
        team_wallet.wf(),
        now + ThresholdProposal::DEFAULT_EXPIRY <= i64::MAX,
    ensures
        match r {
            Err(e) => create_threshold_error(*team_wallet, new_threshold) == Some(e),
            Ok(p) => {
                let owner = team_wallet.owner;
                &&& create_threshold_error(*team_wallet, new_threshold) is None
                &&& p.team_wallet == team_wallet_key
                &&& p.proposer == owner
                &&& p.new_threshold == new_threshold
                &&& p.old_threshold == team_wallet.vote_threshold
                &&& !p.executed
                &&& !p.cancelled
                &&& p.bump == bump
                &&& p.nonce == nonce
                &&& p.snapshot_voters@ == seq![owner] + without(team_wallet.voters@, owner)
                &&& p.voters_voted@ == seq![owner]
                &&& p.votes_for == 1
                &&& p.votes_against == 0
                &&& p.created_at == now
                &&& p.expires_at == now + ThresholdProposal::DEFAULT_EXPIRY
                &&& p.wf()
            },
        },
{
    if new_threshold < 1 {
        return Err(TeamWalletError::InvalidThreshold);
    }
    if new_threshold > 100 {
        return Err(TeamWalletError::InvalidThreshold);
    }
    let owner = team_wallet.owner;
    let mut snapshot: Vec<Pubkey> = Vec::new();
    snapshot.push(owner);
    let rest = crate::pubkey::remove_key(&team_wallet.voters, &owner);
    let mut i: usize = 0;
    proof {
        assert(team_wallet.voters@[0] == owner);
        lemma_without_no_dup(team_wallet.voters@, owner);
    }
    while i < rest.len()
        invariant
            i <= rest.len(),
            rest@ == without(team_wallet.voters@, owner),
            rest@.no_duplicates(),
            !rest@.contains(owner),
            snapshot@ == seq![owner] + rest@.take(i as int),
        decreases rest.len() - i,
    {
        snapshot.push(rest[i]);
        proof {
            assert(rest@.take(i as int + 1) =~= rest@.take(i as int).push(rest@[i as int]));
        }
        i = i + 1;
    }
    proof {
        assert(rest@.take(rest.len() as int) =~= rest@);
        let s = snapshot@;
        assert forall|a: int, b: int| 0 <= a < s.len() && 0 <= b < s.len() && a != b implies s[a]
            != s[b] by {
            if a == 0 && b > 0 {
                assert(s[b] == rest@[b - 1]);
            } else if b == 0 && a > 0 {
                assert(s[a] == rest@[a - 1]);
            } else if a > 0 && b > 0 {
                assert(s[a] == rest@[a - 1] && s[b] == rest@[b - 1]);
            }
        }
        assert(s[0] == owner);
        assert(s.contains(owner));
    }
    let mut voters_voted: Vec<Pubkey> = Vec::new();
    voters_voted.push(owner);
    Ok(
        ThresholdProposal {
            team_wallet: team_wallet_key,
            proposer: owner,
            new_threshold,
            old_threshold: team_wallet.vote_threshold,
            executed: false,
            cancelled: false,
            bump,
            nonce,
            snapshot_voters: snapshot,
            voters_voted,
            votes_for: 1,
            votes_against: 0,
            created_at: now,
            expires_at: now + ThresholdProposal::DEFAULT_EXPIRY,
        },
    )
}

/// Why `voter`'s vote on a threshold proposal is refused, checked in this order.
pub open spec fn vote_threshold_error(p: ThresholdProposal, voter: Pubkey, now: i64) -> Option<TeamWalletError> {
    if p.executed {
        Some(TeamWalletError::ProposalAlreadyExecuted)
    } else if p.cancelled {
        Some(TeamWalletError::ProposalAlreadyCancelled)
    } else if now > p.expires_at {
        Some(TeamWalletError::ProposalExpired)
    } else if !p.snapshot_voters@.contains(voter) {
        Some(TeamWalletError::NotAuthorizedToVote)
    } else if p.voters_voted@.contains(voter) {
        Some(TeamWalletError::AlreadyVoted)
    } else {
        None
    }
}

/// The threshold proposal after `voter`'s accepted vote: it is recorded and counted, and a
/// vote against cancels the proposal when even all remaining voters could no longer bring
/// the votes that the old threshold asks of the snapshot.
pub open spec fn threshold_voted(old: ThresholdProposal, new: ThresholdProposal, voter: Pubkey, vote_for: bool) -> bool {
    &&& new.voters_voted@ == old.voters_voted@.push(voter)
    &&& new.votes_for == old.votes_for + (if vote_for { 1int } else { 0 })
    &&& new.votes_against == old.votes_against + (if vote_for { 0int } else { 1 })
    &&& new.cancelled == (!vote_for && new.votes_for + (new.snapshot_voters@.len()
        - new.voters_voted@.len()) < votes_required(old.snapshot_voters@.len() as int, old.old_threshold as int))
    &&& new.team_wallet == old.team_wallet
    &&& new.proposer == old.proposer
    &&& new.new_threshold == old.new_threshold
    &&& new.old_threshold == old.old_threshold
    &&& new.executed == old.executed
    &&& new.bump == old.bump
    &&& new.nonce == old.nonce
    &&& new.snapshot_voters@ == old.snapshot_voters@
    &&& new.created_at == old.created_at
    &&& new.expires_at == old.expires_at
}

/// Records `voter`'s vote on a threshold proposal.
pub fn vote_threshold_proposal(proposal: &mut ThresholdProposal, voter: Pubkey, vote_for: bool, now: i64) -> (r: Result<(), TeamWalletError>)
    requires
        old(proposal).wf(),
    ensures
        match r {
            Err(e) => vote_threshold_error(*old(proposal), voter, now) == Some(e)
                && *final(proposal) == *old(proposal),
            Ok(()) => vote_threshold_error(*old(proposal), voter, now) is None
                && threshold_voted(*old(proposal), *final(proposal), voter, vote_for),
        },
        r is Ok ==> (final(proposal).cancelled <==> (!vote_for && final(proposal).votes_for + (final(proposal).snapshot_voters@.len() - final(proposal).voters_voted@.len()) < votes_required(
            final(proposal).snapshot_voters@.len() as int,
            final(proposal).old_threshold as int,
        ))),
        final(proposal).wf(),
{
    if proposal.executed {
        return Err(TeamWalletError::ProposalAlreadyExecuted);
    }
    if proposal.cancelled {
        return Err(TeamWalletError::ProposalAlreadyCancelled);
    }
    if proposal.is_expired(now) {
        return Err(TeamWalletError::ProposalExpired);
    }
    if !contains_key(&proposal.snapshot_voters, &voter) {
        return Err(TeamWalletError::NotAuthorizedToVote);
    }
    if contains_key(&proposal.voters_voted, &voter) {
        return Err(TeamWalletError::AlreadyVoted);
    }
    let ghost before = proposal.voters_voted@;
    proposal.voters_voted.push(voter);
    proof {
        let s = proposal.voters_voted@;
        assert forall|a: int, b: int| 0 <= a < s.len() && 0 <= b < s.len() && a != b implies s[a]
            != s[b] by {
            if a == before.len() {
                assert(s[b] == before[b]);
            } else if b == before.len() {
                assert(s[a] == before[a]);
            } else {
                assert(s[a] == before[a] && s[b] == before[b]);
            }
        }
        assert forall|i: int| 0 <= i < s.len() implies proposal.snapshot_voters@.contains(
            #[trigger] s[i],
        ) by {
            if i < before.len() {
                assert(s[i] == before[i]);
            }
        }
        lemma_distinct_subset_len(s, proposal.snapshot_voters@);
    }
    if vote_for {
        proposal.votes_for = proposal.votes_for.saturating_add(1);
    } else {
        proposal.votes_against = proposal.votes_against.saturating_add(1);
        let total_voters: u8 = proposal.snapshot_voters.len() as u8;
        let votes_cast: u8 = proposal.voters_voted.len() as u8;
        let remaining_voters = total_voters.saturating_sub(votes_cast);
        let max_possible_approvals = proposal.votes_for.saturating_add(remaining_voters);
        if (max_possible_approvals as u16) < required_votes(total_voters, proposal.old_threshold) {
            proposal.cancelled = true;
        }
    }
    Ok(())
}

/// Why a threshold proposal may not be executed, checked in this order; a cancelled one is
/// answered as executed.
pub open spec fn execute_threshold_error(p: ThresholdProposal) -> Option<TeamWalletError> {
    if p.executed {
        Some(TeamWalletError::ProposalAlreadyExecuted)
    } else if p.cancelled {
        Some(TeamWalletError::ProposalAlreadyExecuted)
    } else if p.votes_for < votes_required(p.snapshot_voters@.len() as int, p.old_threshold as int) {
        Some(TeamWalletError::InsufficientVotes)
    } else if p.new_threshold < 1 || p.new_threshold > 100 {
        Some(TeamWalletError::InvalidThreshold)
    } else {
        None
    }
}

/// Sets the wallet's threshold to the proposed one once the votes for reach those that the
/// old threshold asks of the snapshot's voters.
pub fn execute_threshold_proposal(proposal: &mut ThresholdProposal, team_wallet: &mut TeamWallet) -> (r: Result<(), TeamWalletError>)
    requires
        old(proposal).wf(),
    ensures
        match r {
            Err(e) => execute_threshold_error(*old(proposal)) == Some(e)
                && *final(proposal) == *old(proposal) && *final(team_wallet) == *old(team_wallet),
            Ok(()) => {
                &&& execute_threshold_error(*old(proposal)) is None
                &&& final(team_wallet).vote_threshold == old(proposal).new_threshold
                &&& final(team_wallet).same_but_threshold(&*old(team_wallet))
                &&& final(team_wallet).threshold_valid()
                &&& final(proposal).executed
                &&& *final(proposal) == (ThresholdProposal { executed: true, ..*old(proposal) })
            },
        },
        old(team_wallet).wf() ==> final(team_wallet).wf(),
{
    if proposal.executed {
        return Err(TeamWalletError::ProposalAlreadyExecuted);
    }
    if proposal.cancelled {
        return Err(TeamWalletError::ProposalAlreadyExecuted);
    }
    if (proposal.votes_for as u16) < required_votes(proposal.snapshot_voters.len() as u8, proposal.old_threshold) {
        return Err(TeamWalletError::InsufficientVotes);
    }
    if proposal.new_threshold < 1 {
        return Err(TeamWalletError::InvalidThreshold);
    }
    if proposal.new_threshold > 100 {
        return Err(TeamWalletError::InvalidThreshold);
    }
    team_wallet.vote_threshold = proposal.new_threshold;
    proposal.executed = true;
    Ok(())
}

} // verus!
