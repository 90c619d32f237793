//! Swap proposals: create, vote and execute.

use vstd::prelude::*;
use crate::errors::TeamWalletError;
use crate::instructions::delete_program::{is_member, member_error};
use crate::instructions::vote_proposal::voter_slot;
use crate::pubkey::{Pubkey, concat_keys, contains_byte, first_index_of, key_eq, position, lemma_distinct_positions_bounded};
use crate::state::swap_proposal::SwapProposalState;
use crate::state::team_wallet::TeamWallet;

verus! {

broadcast use vstd::seq_lib::group_seq_properties;

/// Why creating a swap proposal is refused, checked in this order: only members may
/// propose; both amounts must be positive, the mints different, the slippage at most 50%.
pub open spec fn create_swap_proposal_error(
    w: TeamWallet,
    proposer: Pubkey,
    amount_in: u64,
    input_mint: Pubkey,
    output_mint: Pubkey,
    min_output_amount: u64,
    slippage_bps: u16,
) -> Option<TeamWalletError> {
    if member_error(w, proposer) is Some {
        member_error(w, proposer)
    } else if amount_in == 0 {
        Some(TeamWalletError::InvalidAmount)
    } else if min_output_amount == 0 {
        Some(TeamWalletError::InvalidMinOutput)
    } else if input_mint == output_mint {
        Some(TeamWalletError::SameMintSwap)
    } else if slippage_bps > 5000 {
        Some(TeamWalletError::SlippageTooHigh)
    } else {
        None
    }
}

/// Creates a swap proposal; the snapshot is the voters followed by the contributors, the
/// proposer's vote counts for it at once, and its nonce is the wallet's proposal count.
pub fn create_swap_proposal(
    team_wallet: &TeamWallet,
    team_wallet_key: Pubkey,
    proposer: Pubkey,
    amount_in: u64,
    input_mint: Pubkey,
    output_mint: Pubkey,
    min_output_amount: u64,
    slippage_bps: u16,
    bump: u8,
) -> (r: Result<SwapProposalState, TeamWalletError>)
    requires
        team_wallet.wf(),
    ensures
        match r {
            Err(e) => create_swap_proposal_error(*team_wallet, proposer, amount_in, input_mint, output_mint, min_output_amount, slippage_bps) == Some(e),
            Ok(p) => {
                let snapshot = team_wallet.voters@ + team_wallet.contributors@;
                &&& create_swap_proposal_error(*team_wallet, proposer, amount_in, input_mint, output_mint, min_output_amount, slippage_bps) is None
                &&& p == (SwapProposalState {
                    team_wallet: team_wallet_key,
                    proposer,
                    amount: amount_in,
                    input_mint: Some(input_mint),
                    output_mint: Some(output_mint),
                    min_output_amount: Some(min_output_amount),
                    slippage_bps: Some(slippage_bps),
                    is_token_transfer: false,
                    mint: None,
                    is_swap_proposal: true,
                    votes_for: 1,
                    votes_against: 0,
                    snapshot_voters: p.snapshot_voters,
                    voters_voted: p.voters_voted,
                    executed: false,
                    ready_to_execute: false,
                    bump,
                    nonce: team_wallet.proposal_count,
                })
                &&& p.snapshot_voters@ == snapshot
                &&& p.voters_voted@ == seq![first_index_of(snapshot, proposer) as u8]
                &&& p.wf()
            },
        },
{
    if !is_member(team_wallet, &proposer) {
        return Err(TeamWalletError::NotAVoterOrContributor);
    }
    if amount_in == 0 {
        return Err(TeamWalletError::InvalidAmount);
    }
    if min_output_amount == 0 {
        return Err(TeamWalletError::InvalidMinOutput);
    }
    if key_eq(&input_mint, &output_mint) {
        return Err(TeamWalletError::SameMintSwap);
    }
    if slippage_bps > 5000 {
        return Err(TeamWalletError::SlippageTooHigh);
    }
    let snapshot = concat_keys(&team_wallet.voters, &team_wallet.contributors);
    proof {
        if team_wallet.voters@.contains(proposer) {
            let j = choose|j: int| 0 <= j < team_wallet.voters@.len() && team_wallet.voters@[j] == proposer;
            assert(snapshot@[j] == proposer);
        } else if team_wallet.contributors@.contains(proposer) {
            let j = choose|j: int| 0 <= j < team_wallet.contributors@.len() && team_wallet.contributors@[j] == proposer;
            assert(snapshot@[team_wallet.voters@.len() + j] == proposer);
        } else {
            assert(snapshot@[0] == proposer);
        }
        assert(snapshot@.contains(proposer));
    }
    let proposer_index: u8 = match position(&snapshot, &proposer) {
        Some(i) => i as u8,
        None => 0,
    };
    let mut voters_voted: Vec<u8> = Vec::new();
    voters_voted.push(proposer_index);
    Ok(
        SwapProposalState {
            team_wallet: team_wallet_key,
            proposer,
            amount: amount_in,
            input_mint: Some(input_mint),
            output_mint: Some(output_mint),
            min_output_amount: Some(min_output_amount),
            slippage_bps: Some(slippage_bps),
            is_token_transfer: false,
            mint: None,
            is_swap_proposal: true,
            votes_for: 1,
            votes_against: 0,
            snapshot_voters: snapshot,
            voters_voted,
            executed: false,
            ready_to_execute: false,
            bump,
            nonce: team_wallet.proposal_count,
        },
    )
}

/// Why a vote on a swap proposal is refused, checked in this order.
pub open spec fn vote_swap_proposal_error(p: SwapProposalState, w: TeamWallet, voter: Pubkey) -> Option<TeamWalletError> {
    if !p.is_swap_proposal {
        Some(TeamWalletError::InvalidProposalType)
    } else if p.executed {
        Some(TeamWalletError::ProposalAlreadyExecuted)
    } else if !w.is_member(voter) {
        Some(TeamWalletError::NotAuthorizedToVote)
    } else if !p.snapshot_voters@.contains(voter) {
        Some(TeamWalletError::NotAuthorizedToVote)
    } else if p.voters_voted@.contains(voter_slot(p.snapshot_voters@, voter)) {
        Some(TeamWalletError::AlreadyVoted)
    } else {
        None
    }
}

/// Records `voter`'s vote; the proposal is ready to execute once the votes for reach the
/// share of the voters that the threshold percentage asks for, rounded up.
pub fn vote_swap_proposal(
    proposal: &mut SwapProposalState,
    team_wallet: &TeamWallet,
    voter: Pubkey,
    vote_for: bool,
) -> (r: Result<(), TeamWalletError>)
    requires
        old(proposal).wf(),
    ensures
        match r {
            Err(e) => vote_swap_proposal_error(*old(proposal), *team_wallet, voter) == Some(e)
                && *final(proposal) == *old(proposal),
            Ok(()) => {
                let p = *old(proposal);
                let votes_for = p.votes_for + (if vote_for { 1int } else { 0 });
                &&& vote_swap_proposal_error(p, *team_wallet, voter) is None
                &&& final(proposal).voters_voted@ == p.voters_voted@.push(voter_slot(p.snapshot_voters@, voter))
                &&& final(proposal).votes_for == votes_for
                &&& final(proposal).votes_against == p.votes_against + (if vote_for { 0int } else { 1 })
                &&& final(proposal).ready_to_execute == (p.ready_to_execute || votes_for >= team_wallet.votes_required())
                &&& *final(proposal) == (SwapProposalState {
                    votes_for: final(proposal).votes_for,
                    votes_against: final(proposal).votes_against,
                    voters_voted: final(proposal).voters_voted,
                    ready_to_execute: final(proposal).ready_to_execute,
                    ..p
                })
            },
        },
        final(proposal).wf(),
{
    if !proposal.is_swap_proposal {
        return Err(TeamWalletError::InvalidProposalType);
    }
    if proposal.executed {
        return Err(TeamWalletError::ProposalAlreadyExecuted);
    }
    if !is_member(team_wallet, &voter) {
        return Err(TeamWalletError::NotAuthorizedToVote);
    }
    let voter_index: u8 = match position(&proposal.snapshot_voters, &voter) {
        Some(i) => i as u8,
        None => {
            return Err(TeamWalletError::NotAuthorizedToVote);
        },
    };
    if contains_byte(&proposal.voters_voted, voter_index) {
        return Err(TeamWalletError::AlreadyVoted);
    }
    let ghost before = proposal.voters_voted@;
    proposal.voters_voted.push(voter_index);
    proof {
        let s = proposal.voters_voted@;
        let n = proposal.snapshot_voters@.len();
        assert forall|a: int, b: int| 0 <= a < s.len() && 0 <= b < s.len() && a != b implies s[a]
            != s[b] by {
            if a == before.len() {
                assert(s[b] == before[b]);
            } else if b == before.len() {
                assert(s[a] == before[a]);
            } else {
                assert(s[a] == before[a] && s[b] == before[b]);
            }
        }
        assert forall|i: int| 0 <= i < s.len() implies (#[trigger] s[i]) < n by {
            if i < before.len() {
                assert(s[i] == before[i]);
            }
        }
        lemma_distinct_positions_bounded(s, n);
    }
    if vote_for {
        proposal.votes_for = proposal.votes_for + 1;
    } else {
        proposal.votes_against = proposal.votes_against + 1;
    }
    if proposal.votes_for as u16 >= team_wallet.votes_needed() {
        proposal.ready_to_execute = true;
    }
    Ok(())
}

/// Why executing a swap proposal is refused, checked in this order: it must be a swap
/// proposal, not executed, ready, and the output account must hold the minimum output.
pub open spec fn execute_swap_proposal_error(p: SwapProposalState, output_balance: u64) -> Option<TeamWalletError> {
    if !p.is_swap_proposal {
        Some(TeamWalletError::InvalidProposalType)
    } else if p.executed {
        Some(TeamWalletError::ProposalAlreadyExecuted)
    } else if !p.ready_to_execute {
        Some(TeamWalletError::InsufficientVotes)
    } else if output_balance < p.min_output_amount.unwrap() {
        Some(TeamWalletError::SlippageExceeded)
    } else {
        None
    }
}

/// Marks a ready swap proposal executed when the output token account, whose balance is
/// `output_balance`, holds at least the minimum output.
pub fn execute_swap_proposal(proposal: &mut SwapProposalState, output_balance: u64) -> (r: Result<(), TeamWalletError>)
    requires
        old(proposal).wf(),
    ensures
        match r {
            Err(e) => execute_swap_proposal_error(*old(proposal), output_balance) == Some(e)
                && *final(proposal) == *old(proposal),
            Ok(()) => execute_swap_proposal_error(*old(proposal), output_balance) is None
                && *final(proposal) == (SwapProposalState { executed: true, ..*old(proposal) }),
        },
{
    if !proposal.is_swap_proposal {
        return Err(TeamWalletError::InvalidProposalType);
    }
    if proposal.executed {
        return Err(TeamWalletError::ProposalAlreadyExecuted);
    }
    if !proposal.ready_to_execute {
        return Err(TeamWalletError::InsufficientVotes);
    }
    let min_out = match proposal.min_output_amount {
        Some(m) => m,
        None => {
            return Err(TeamWalletError::InvalidMinOutput);
        },
    };
    if output_balance < min_out {
        return Err(TeamWalletError::SlippageExceeded);
    }
    proposal.executed = true;
    Ok(())
}

} // verus!
