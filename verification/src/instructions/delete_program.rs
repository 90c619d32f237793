//! Closing one of the team's programs by vote: create, vote, execute, close.

use vstd::prelude::*;
use crate::cpi::OutsideCall;
use crate::errors::TeamWalletError;
use crate::instructions::execute_proposal::{close_program_instruction, is_close_program_instruction};
use crate::pubkey::{Pubkey, contains_key, key_eq};
use crate::solana::{bpf_loader_upgradeable_id, derived_program_data, try_find_program_address};
use crate::state::delete_proposal::{DeleteProposal, saturating_inc};
use crate::state::team_wallet::TeamWallet;

verus! {

/// Whether `k` may create and vote on proposals: a voter, a contributor or the owner.
pub fn is_member(team_wallet: &TeamWallet, k: &Pubkey) -> (r: bool)
    ensures
        r == team_wallet.is_member(*k),
{
    let is_voter = contains_key(&team_wallet.voters, k);
    let is_contributor = contains_key(&team_wallet.contributors, k);
    let is_owner = key_eq(&team_wallet.owner, k);
    is_voter || is_contributor || is_owner
}

/// Why `proposer` may not propose: only members may.
pub open spec fn member_error(w: TeamWallet, k: Pubkey) -> Option<TeamWalletError> {
    if !w.is_member(k) {
        Some(TeamWalletError::NotAVoterOrContributor)
    } else {
        None
    }
}

/// Proposes closing `program_id`, refunding to `spill_account`; the proposer's vote counts
/// for it at once, and the proposal expires seven days after `now`.
pub fn create_delete_proposal(
    team_wallet: &TeamWallet,
    team_wallet_key: Pubkey,
    proposer: Pubkey,
    program_id: Pubkey,
    spill_account: Pubkey,
    now: i64,
    bump: u8,
) -> (r: Result<DeleteProposal, TeamWalletError>)
    requires
        now + DeleteProposal::DEFAULT_EXPIRY <= i64::MAX,
    ensures
        match r {
            Err(e) => member_error(*team_wallet, proposer) == Some(e),
            Ok(p) => {
                &&& member_error(*team_wallet, proposer) is None
                &&& p == (DeleteProposal {
                    team_wallet: team_wallet_key,
                    proposer,
                    program_id,
                    spill_account,
                    votes_for: 1,
                    votes_against: 0,
                    voters_voted: p.voters_voted,
                    executed: false,
                    cancelled: false,
                    bump,
                    created_at: now,
                    expires_at: (now + DeleteProposal::DEFAULT_EXPIRY) as i64,
                })
                &&& p.voters_voted@ == seq![proposer]
                &&& p.wf()
            },
        },
{
    if !is_member(team_wallet, &proposer) {
        return Err(TeamWalletError::NotAVoterOrContributor);
    }
    let mut voters_voted: Vec<Pubkey> = Vec::new();
    voters_voted.push(proposer);
    Ok(
        DeleteProposal {
            team_wallet: team_wallet_key,
            proposer,
            program_id,
            spill_account,
            votes_for: 1,
            votes_against: 0,
            voters_voted,
            executed: false,
            cancelled: false,
            bump,
            created_at: now,
            expires_at: now + DeleteProposal::DEFAULT_EXPIRY,
        },
    )
}

/// Why `voter`'s vote on a delete proposal is refused, checked in this order; any member
/// of the wallet at the time of the vote may vote once.
pub open spec fn vote_delete_error(p: DeleteProposal, w: TeamWallet, voter: Pubkey, now: i64) -> Option<TeamWalletError> {
    if p.executed {
        Some(TeamWalletError::ProposalAlreadyExecuted)
    } else if p.cancelled {
        Some(TeamWalletError::ProposalAlreadyCancelled)
    } else if now > p.expires_at {
        Some(TeamWalletError::ProposalExpired)
    } else if !w.is_member(voter) {
        Some(TeamWalletError::NotAVoter)
    } else if p.voters_voted@.contains(voter) {
        Some(TeamWalletError::AlreadyVoted)
    } else {
        None
    }
}

/// Records `voter`'s vote on a delete proposal; counts stop at the largest byte.
pub fn vote_delete_proposal(
    proposal: &mut DeleteProposal,
    team_wallet: &TeamWallet,
    voter: Pubkey,
    vote_for: bool,
    now: i64,
) -> (r: Result<(), TeamWalletError>)
    requires
        old(proposal).wf(),
    ensures
        match r {
            Err(e) => vote_delete_error(*old(proposal), *team_wallet, voter, now) == Some(e)
                && *final(proposal) == *old(proposal),
            Ok(()) => {
                let p = *old(proposal);
                &&& vote_delete_error(p, *team_wallet, voter, now) is None
                &&& final(proposal).voters_voted@ == p.voters_voted@.push(voter)
                &&& *final(proposal) == (DeleteProposal {
                    votes_for: if vote_for { saturating_inc(p.votes_for) } else { p.votes_for },
                    votes_against: if vote_for { p.votes_against } else { saturating_inc(p.votes_against) },
                    voters_voted: final(proposal).voters_voted,
                    ..p
                })
            },
        },
        final(proposal).wf(),
{
    if proposal.executed {
        return Err(TeamWalletError::ProposalAlreadyExecuted);
    }
    if proposal.cancelled {
        return Err(TeamWalletError::ProposalAlreadyCancelled);
    }
    if proposal.is_expired(now) {
        return Err(TeamWalletError::ProposalExpired);
    }
    if !is_member(team_wallet, &voter) {
        return Err(TeamWalletError::NotAVoter);
    }
    if contains_key(&proposal.voters_voted, &voter) {
        return Err(TeamWalletError::AlreadyVoted);
    }
    let ghost before = proposal.voters_voted@;
    proposal.voters_voted.push(voter);
    if vote_for {
        proposal.votes_for = proposal.votes_for.saturating_add(1);
    } else {
        proposal.votes_against = proposal.votes_against.saturating_add(1);
    }
    proof {
        let s = proposal.voters_voted@;
        assert forall|a: int, b: int| 0 <= a < s.len() && 0 <= b < s.len() && a != b implies s[a]
            != s[b] by {
            if a == before.len() {
                assert(s[b] == before[b]);
            } else if b == before.len() {
                assert(s[a] == before[a]);
            } else {
                assert(s[a] == before[a] && s[b] == before[b]);
            }
        }
    }
    Ok(())
}

/// Checks that `program_data` is the program data account of `program`.
pub fn check_program_data(program: &Pubkey, program_data: &Pubkey) -> (r: bool)
    ensures
        r == derived_program_data(*program_data, *program),
{
    let loader = bpf_loader_upgradeable_id();
    match try_find_program_address(program, &loader) {
        Some((expected, _bump)) => {
            let same = key_eq(&expected, program_data);
            proof {
                if !same {
                    if program_data.bytes@ == expected.bytes@ {
                        assert(program_data.bytes =~= expected.bytes);
                    }
                }
            }
            same
        },
        None => false,
    }
}

/// Why executing a delete proposal is refused, checked in this order: it must be open and
/// unexpired, the executor a member (owner, voter or contributor), the votes for at least
/// those the wallet's threshold asks for, and the accounts those of the proposal's program.
pub open spec fn execute_delete_error(
    p: DeleteProposal,
    w: TeamWallet,
    executor: Pubkey,
    program_account: Pubkey,
    program_data: Pubkey,
    spill_account: Pubkey,
    now: i64,
) -> Option<TeamWalletError> {
    if p.executed {
        Some(TeamWalletError::ProposalAlreadyExecuted)
    } else if p.cancelled {
        Some(TeamWalletError::ProposalAlreadyCancelled)
    } else if now > p.expires_at {
        Some(TeamWalletError::ProposalExpired)
    } else if !w.is_member(executor) {
        Some(TeamWalletError::NotAVoterOrContributor)
    } else if p.votes_for < w.votes_required() {
        Some(TeamWalletError::InsufficientVotes)
    } else if program_account != p.program_id {
        Some(TeamWalletError::InvalidProgramData)
    } else if spill_account != p.spill_account {
        Some(TeamWalletError::InvalidProgramData)
    } else if !derived_program_data(program_data, program_account) {
        Some(TeamWalletError::InvalidProgramData)
    } else {
        None
    }
}

/// Executes a delete proposal: returns the loader's instruction that closes the program,
/// signed by the team wallet, and marks the proposal executed.
pub fn execute_delete_proposal(
    proposal: &mut DeleteProposal,
    team_wallet: &TeamWallet,
    team_wallet_key: Pubkey,
    executor: Pubkey,
    program_account: Pubkey,
    program_data: Pubkey,
    spill_account: Pubkey,
    now: i64,
) -> (r: Result<OutsideCall, TeamWalletError>)
    ensures
        match r {
            Err(e) => execute_delete_error(*old(proposal), *team_wallet, executor, program_account, program_data, spill_account, now) == Some(e)
                && *final(proposal) == *old(proposal),
            Ok(call) => {
                &&& execute_delete_error(*old(proposal), *team_wallet, executor, program_account, program_data, spill_account, now) is None
                &&& call matches OutsideCall::Invoke { instruction }
                &&& is_close_program_instruction(instruction, program_data, spill_account, team_wallet_key, program_account)
                &&& *final(proposal) == (DeleteProposal { executed: true, ..*old(proposal) })
            },
        },
        r is Ok ==> old(proposal).votes_for >= team_wallet.votes_required(),
{
    if proposal.executed {
        return Err(TeamWalletError::ProposalAlreadyExecuted);
    }
    if proposal.cancelled {
        return Err(TeamWalletError::ProposalAlreadyCancelled);
    }
    if proposal.is_expired(now) {
        return Err(TeamWalletError::ProposalExpired);
    }
    if !is_member(team_wallet, &executor) {
        return Err(TeamWalletError::NotAVoterOrContributor);
    }
    if (proposal.votes_for as u16) < team_wallet.votes_needed() {
        return Err(TeamWalletError::InsufficientVotes);
    }
    if !key_eq(&program_account, &proposal.program_id) {
        return Err(TeamWalletError::InvalidProgramData);
    }
    if !key_eq(&spill_account, &proposal.spill_account) {
        return Err(TeamWalletError::InvalidProgramData);
    }
    if !check_program_data(&program_account, &program_data) {
        return Err(TeamWalletError::InvalidProgramData);
    }
    let instruction = close_program_instruction(program_data, spill_account, team_wallet_key, program_account);
    proposal.executed = true;
    Ok(OutsideCall::Invoke { instruction })
}

/// Why `closer` may not close a delete proposal's account: it must not be executed, and
/// only the owner or a contributor may close it.
pub open spec fn close_delete_error(p: DeleteProposal, w: TeamWallet, closer: Pubkey) -> Option<TeamWalletError> {
    if p.executed {
        Some(TeamWalletError::ProposalAlreadyExecuted)
    } else if !(closer == w.owner || w.contributors@.contains(closer)) {
        Some(TeamWalletError::NotAVoterOrContributor)
    } else {
        None
    }
}

/// Allows closing an unexecuted delete proposal's account, its rent going to the spill
/// account; `Ok` means it is closed.
pub fn close_delete_proposal(proposal: &DeleteProposal, team_wallet: &TeamWallet, closer: Pubkey) -> (r: Result<(), TeamWalletError>)
    ensures
        match r {
            Err(e) => close_delete_error(*proposal, *team_wallet, closer) == Some(e),
            Ok(()) => close_delete_error(*proposal, *team_wallet, closer) is None,
        },
{
    if proposal.executed {
        return Err(TeamWalletError::ProposalAlreadyExecuted);
    }
    if !(key_eq(&closer, &team_wallet.owner) || contains_key(&team_wallet.contributors, &closer)) {
        return Err(TeamWalletError::NotAVoterOrContributor);
    }
    Ok(())
}

} // verus!
