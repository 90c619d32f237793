//! Voting on a swap intent.

use vstd::prelude::*;
use crate::errors::TeamWalletError;
use crate::instructions::vote_proposal::voter_slot;
use crate::pubkey::{Pubkey, contains_byte, position, lemma_distinct_positions_bounded};
use crate::state::swap_intent::SwapIntent;
use crate::state::team_wallet::TeamWallet;

verus! {

/// Why a vote on a swap intent is refused, checked in this order.
pub open spec fn vote_swap_intent_error(i: SwapIntent, voter: Pubkey, now: i64) -> Option<TeamWalletError> {
    if i.executed {
        Some(TeamWalletError::ProposalAlreadyExecuted)
    } else if i.cancelled {
        Some(TeamWalletError::ProposalAlreadyCancelled)
    } else if now > i.expires_at {
        Some(TeamWalletError::ProposalExpired)
    } else if !i.snapshot_voters@.contains(voter) {
        Some(TeamWalletError::NotAuthorizedToVote)
    } else if i.voters_voted@.contains(voter_slot(i.snapshot_voters@, voter)) {
        Some(TeamWalletError::AlreadyVoted)
    } else {
        None
    }
}

/// What a vote answers and leaves behind: a refusal changes nothing; an accepted vote is
/// recorded and counted, and the intent becomes approved, at `now`, when its votes for
/// first reach the votes that the wallet's current threshold asks for.
pub open spec fn vote_swap_intent_outcome(
    i: SwapIntent,
    j: SwapIntent,
    w: TeamWallet,
    voter: Pubkey,
    vote_for: bool,
    now: i64,
    r: Result<(), TeamWalletError>,
) -> bool {
    match r {
        Err(e) => vote_swap_intent_error(i, voter, now) == Some(e) && j == i,
        Ok(()) => {
            let votes_for = i.votes_for + (if vote_for { 1int } else { 0 });
            let reaches = votes_for >= w.votes_required();
            &&& vote_swap_intent_error(i, voter, now) is None
            &&& j.voters_voted@ == i.voters_voted@.push(voter_slot(i.snapshot_voters@, voter))
            &&& j.votes_for == votes_for
            &&& j.votes_against == i.votes_against + (if vote_for { 0int } else { 1 })
            &&& j.approved == (i.approved || reaches)
            &&& j.approved_at == (if !i.approved && reaches { now } else { i.approved_at })
            &&& j == (SwapIntent {
                votes_for: j.votes_for,
                votes_against: j.votes_against,
                voters_voted: j.voters_voted,
                approved: j.approved,
                approved_at: j.approved_at,
                ..i
            })
        },
    }
}

/// Records `voter`'s vote; the intent becomes approved, at `now`, when the votes for first
/// reach the votes that the wallet's current threshold asks for, which opens its execution window.
pub fn vote_swap_intent(
    swap_intent: &mut SwapIntent,
    team_wallet: &TeamWallet,
    voter: Pubkey,
    vote_for: bool,
    now: i64,
) -> (r: Result<(), TeamWalletError>)
    requires
        old(swap_intent).wf(),
    ensures
        vote_swap_intent_outcome(*old(swap_intent), *final(swap_intent), *team_wallet, voter, vote_for, now, r),
        final(swap_intent).wf(),
{
    if swap_intent.executed {
        return Err(TeamWalletError::ProposalAlreadyExecuted);
    }
    if swap_intent.cancelled {
        return Err(TeamWalletError::ProposalAlreadyCancelled);
    }
    if swap_intent.is_expired(now) {
        return Err(TeamWalletError::ProposalExpired);
    }
    let voter_index: u8 = match position(&swap_intent.snapshot_voters, &voter) {
        Some(i) => i as u8,
        None => {
            return Err(TeamWalletError::NotAuthorizedToVote);
        },
    };
    if contains_byte(&swap_intent.voters_voted, voter_index) {
        return Err(TeamWalletError::AlreadyVoted);
    }
    let ghost before = swap_intent.voters_voted@;
    proof {
        let s = before.push(voter_index);
        let n = swap_intent.snapshot_voters@.len();
        assert forall|a: int, b: int| 0 <= a < s.len() && 0 <= b < s.len() && a != b implies s[a]
            != s[b] by {
            if a == before.len() {
                assert(s[b] == before[b]);
            } else if b == before.len() {
                assert(s[a] == before[a]);
            } else {
                assert(s[a] == before[a] && s[b] == before[b]);
            }
        }
        assert forall|i: int| 0 <= i < s.len() implies (#[trigger] s[i]) < n by {
            if i < before.len() {
                assert(s[i] == before[i]);
            }
        }
        lemma_distinct_positions_bounded(s, n);
    }
    if vote_for {
        swap_intent.votes_for = swap_intent.votes_for.saturating_add(1);
    } else {
        swap_intent.votes_against = swap_intent.votes_against.saturating_add(1);
    }
    swap_intent.voters_voted.push(voter_index);
    if !swap_intent.approved && swap_intent.votes_for as u16 >= team_wallet.votes_needed() {
        swap_intent.approved = true;
        swap_intent.approved_at = now;
    }
    Ok(())
}

} // verus!
