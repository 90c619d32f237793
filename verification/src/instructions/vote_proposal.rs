//! Voting on a proposal.

use vstd::prelude::*;
use crate::errors::TeamWalletError;
use crate::pubkey::{Pubkey, contains_byte, first_index_of, position, lemma_distinct_positions_bounded};
use crate::state::proposal::Proposal;

verus! {

/// The position in the snapshot at which `voter`'s vote is recorded.
pub open spec fn voter_slot(snapshot: Seq<Pubkey>, voter: Pubkey) -> u8 {
    first_index_of(snapshot, voter) as u8
}

/// Why a vote is refused, checked in this order: the proposal must still be open and
/// unexpired, the voter must be in the snapshot and must not have voted.
pub open spec fn vote_error(p: Proposal, voter: Pubkey, now: i64) -> Option<TeamWalletError> {
    if p.executed {
        Some(TeamWalletError::ProposalAlreadyExecuted)
    } else if p.cancelled {
        Some(TeamWalletError::ProposalAlreadyCancelled)
    } else if now > p.expires_at {
        Some(TeamWalletError::ProposalExpired)
    } else if !p.snapshot_voters@.contains(voter) {
        Some(TeamWalletError::NotAuthorizedToVote)
    } else if p.voters_voted@.contains(voter_slot(p.snapshot_voters@, voter)) {
        Some(TeamWalletError::AlreadyVoted)
    } else {
        None
    }
}

/// The proposal after `voter`'s accepted vote: the vote is counted and recorded; the
/// proposal becomes approved, at `now`, when the votes for first reach the snapshot
/// threshold; it is cancelled when even all remaining voters could no longer reach it.
pub open spec fn voted(old: Proposal, new: Proposal, voter: Pubkey, vote_for: bool, now: i64) -> bool {
    let votes_for = old.votes_for + (if vote_for { 1int } else { 0 });
    let reaches = votes_for >= old.snapshot_threshold;
    &&& new.votes_for == votes_for
    &&& new.votes_against == old.votes_against + (if vote_for { 0int } else { 1 })
    &&& new.voters_voted@ == old.voters_voted@.push(voter_slot(old.snapshot_voters@, voter))
    &&& new.approved == (old.approved || reaches)
    &&& new.approved_at == (if !old.approved && reaches {
        now
    } else {
        old.approved_at
    })
    &&& new.cancelled == (votes_for + (new.snapshot_voters@.len() - new.voters_voted@.len())
        < old.snapshot_threshold)
    &&& new.same_but_votes(&old)
}

/// Records `voter`'s vote on the proposal.
pub fn vote_proposal(proposal: &mut Proposal, voter: Pubkey, vote_for: bool, now: i64) -> (r: Result<
    (),
    TeamWalletError,
>)
    requires
        old(proposal).wf(),
    ensures
        match r {
            Err(e) => vote_error(*old(proposal), voter, now) == Some(e) && *final(proposal) == *old(
                proposal,
            ),
            Ok(()) => vote_error(*old(proposal), voter, now) is None && voted(
                *old(proposal),
                *final(proposal),
                voter,
                vote_for,
                now,
            ),
        },
        r is Ok ==> (final(proposal).cancelled <==> final(proposal).votes_for + (final(proposal).snapshot_voters@.len() - final(proposal).voters_voted@.len()) < final(proposal).snapshot_threshold),
        final(proposal).wf(),
{
    if proposal.executed {
        return Err(TeamWalletError::ProposalAlreadyExecuted);
    }
    if proposal.cancelled {
        return Err(TeamWalletError::ProposalAlreadyCancelled);
    }
    if proposal.is_expired(now) {
        return Err(TeamWalletError::ProposalExpired);
    }
    let voter_index: u8 = match position(&proposal.snapshot_voters, &voter) {
        Some(i) => i as u8,
        None => {
            return Err(TeamWalletError::NotAuthorizedToVote);
        },
    };
    if contains_byte(&proposal.voters_voted, voter_index) {
        return Err(TeamWalletError::AlreadyVoted);
    }
    let ghost before = proposal.voters_voted@;
    if vote_for {
        proposal.votes_for = proposal.votes_for.saturating_add(1);
    } else {
        proposal.votes_against = proposal.votes_against.saturating_add(1);
    }
    proposal.voters_voted.push(voter_index);
    proof {
        let s = proposal.voters_voted@;
        let n = proposal.snapshot_voters@.len();
        assert forall|a: int, b: int| 0 <= a < s.len() && 0 <= b < s.len() && a != b implies s[a]
            != s[b] by {
            if a == before.len() {
                assert(s[b] == before[b]);
            } else if b == before.len() {
                assert(s[a] == before[a]);
            } else {
                assert(s[a] == before[a] && s[b] == before[b]);
            }
        }
        assert forall|i: int| 0 <= i < s.len() implies (#[trigger] s[i]) < n by {
            if i < before.len() {
                assert(s[i] == before[i]);
            }
        }
        lemma_distinct_positions_bounded(s, n);
    }
    if !proposal.approved && proposal.votes_for >= proposal.snapshot_threshold {
        proposal.approved = true;
        proposal.approved_at = now;
    }
    let total_voters: u8 = proposal.snapshot_voters.len() as u8;
    let votes_cast: u8 = proposal.voters_voted.len() as u8;
    let remaining = total_voters.saturating_sub(votes_cast);
    let max_possible = proposal.votes_for.saturating_add(remaining);
    if max_possible < proposal.snapshot_threshold {
        proposal.cancelled = true;
    }
    Ok(())
}

} // verus!
