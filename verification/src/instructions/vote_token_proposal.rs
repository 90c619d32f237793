//! Voting on a token proposal.

use vstd::prelude::*;
use crate::errors::TeamWalletError;
use crate::instructions::vote_proposal::voter_slot;
use crate::pubkey::{Pubkey, contains_byte, position, lemma_distinct_positions_bounded};
use crate::state::token_proposal::TokenProposal;

verus! {

/// Why a vote on a token proposal is refused, checked in this order.
pub open spec fn vote_token_error(p: TokenProposal, voter: Pubkey, now: i64) -> Option<TeamWalletError> {
    if p.executed {
        Some(TeamWalletError::ProposalAlreadyExecuted)
    } else if p.cancelled {
        Some(TeamWalletError::ProposalAlreadyCancelled)
    } else if now > p.expires_at {
        Some(TeamWalletError::ProposalExpired)
    } else if !p.snapshot_voters@.contains(voter) {
        Some(TeamWalletError::NotAuthorizedToVote)
    } else if p.voters_voted@.contains(voter_slot(p.snapshot_voters@, voter)) {
        Some(TeamWalletError::AlreadyVoted)
    } else {
        None
    }
}

/// Records `voter`'s vote, under the first position of `voter` in the snapshot.
pub fn vote_token_proposal(proposal: &mut TokenProposal, voter: Pubkey, vote_for: bool, now: i64) -> (r: Result<(), TeamWalletError>)
    requires
        old(proposal).wf(),
    ensures
        match r {
            Err(e) => vote_token_error(*old(proposal), voter, now) == Some(e)
                && *final(proposal) == *old(proposal),
            Ok(()) => {
                let p = *old(proposal);
                &&& vote_token_error(p, voter, now) is None
                &&& final(proposal).voters_voted@ == p.voters_voted@.push(voter_slot(p.snapshot_voters@, voter))
                &&& final(proposal).votes_for == p.votes_for + (if vote_for { 1int } else { 0 })
                &&& final(proposal).votes_against == p.votes_against + (if vote_for { 0int } else { 1 })
                &&& *final(proposal) == (TokenProposal {
                    votes_for: final(proposal).votes_for,
                    votes_against: final(proposal).votes_against,
                    voters_voted: final(proposal).voters_voted,
                    ..p
                })
            },
        },
        final(proposal).wf(),
{
    if proposal.executed {
        return Err(TeamWalletError::ProposalAlreadyExecuted);
    }
    if proposal.cancelled {
        return Err(TeamWalletError::ProposalAlreadyCancelled);
    }
    if proposal.is_expired(now) {
        return Err(TeamWalletError::ProposalExpired);
    }
    let voter_index: u8 = match position(&proposal.snapshot_voters, &voter) {
        Some(i) => i as u8,
        None => {
            return Err(TeamWalletError::NotAuthorizedToVote);
        },
    };
    if contains_byte(&proposal.voters_voted, voter_index) {
        return Err(TeamWalletError::AlreadyVoted);
    }
    let ghost before = proposal.voters_voted@;
    proof {
        let s = before.push(voter_index);
        let n = proposal.snapshot_voters@.len();
        assert forall|a: int, b: int| 0 <= a < s.len() && 0 <= b < s.len() && a != b implies s[a]
            != s[b] by {
            if a == before.len() {
                assert(s[b] == before[b]);
            } else if b == before.len() {
                assert(s[a] == before[a]);
            } else {
                assert(s[a] == before[a] && s[b] == before[b]);
            }
        }
        assert forall|i: int| 0 <= i < s.len() implies (#[trigger] s[i]) < n by {
            if i < before.len() {
                assert(s[i] == before[i]);
            }
        }
        lemma_distinct_positions_bounded(s, n);
    }
    if vote_for {
        proposal.votes_for = proposal.votes_for.saturating_add(1);
    } else {
        proposal.votes_against = proposal.votes_against.saturating_add(1);
    }
    proposal.voters_voted.push(voter_index);
    Ok(())
}

} // verus!
