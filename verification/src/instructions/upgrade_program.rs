//! Upgrading one of the team's programs by vote: create, vote, execute and close.

use vstd::prelude::*;
use crate::cpi::OutsideCall;
use crate::errors::TeamWalletError;
use crate::instructions::delete_program::{check_program_data, is_member, member_error};
use crate::solana::{derived_program_data, is_upgrade_instruction, upgrade_instruction};
use crate::pubkey::{Pubkey, contains_key, key_eq};
use crate::state::delete_proposal::saturating_inc;
use crate::state::team_wallet::TeamWallet;
use crate::state::upgrade_proposal::UpgradeProposal;

verus! {

/// Proposes upgrading the team's program from `new_buffer`, refunding the buffer's lamports
/// to `spill_account`; the proposer's vote counts for it at once.
pub fn create_upgrade_proposal(
    team_wallet: &TeamWallet,
    team_wallet_key: Pubkey,
    proposer: Pubkey,
    new_buffer: Pubkey,
    spill_account: Pubkey,
    bump: u8,
) -> (r: Result<UpgradeProposal, TeamWalletError>)
    ensures
        match r {
            Err(e) => member_error(*team_wallet, proposer) == Some(e),
            Ok(p) => {
                &&& member_error(*team_wallet, proposer) is None
                &&& p == (UpgradeProposal {
                    team_wallet: team_wallet_key,
                    proposer,
                    new_buffer,
                    spill_account,
                    votes_for: 1,
                    votes_against: 0,
                    voters_voted: p.voters_voted,
                    executed: false,
                    bump,
                })
                &&& p.voters_voted@ == seq![proposer]
                &&& p.wf()
            },
        },
{
    if !is_member(team_wallet, &proposer) {
        return Err(TeamWalletError::NotAVoterOrContributor);
    }
    let mut voters_voted: Vec<Pubkey> = Vec::new();
    voters_voted.push(proposer);
    Ok(
        UpgradeProposal {
            team_wallet: team_wallet_key,
            proposer,
            new_buffer,
            spill_account,
            votes_for: 1,
            votes_against: 0,
            voters_voted,
            executed: false,
            bump,
        },
    )
}

/// Why executing an upgrade proposal is refused, checked in this order: it must not be
/// executed, its votes for must reach those the wallet's threshold asks for, the buffer
/// and the spill account must be the proposed ones, and the program data account that of
/// the program.
pub open spec fn execute_upgrade_error(
    p: UpgradeProposal,
    w: TeamWallet,
    program_id: Pubkey,
    program_data: Pubkey,
    buffer: Pubkey,
    spill_account: Pubkey,
) -> Option<TeamWalletError> {
    if p.executed {
        Some(TeamWalletError::ProposalAlreadyExecuted)
    } else if p.votes_for < w.votes_required() {
        Some(TeamWalletError::InsufficientVotes)
    } else if p.new_buffer != buffer {
        Some(TeamWalletError::InvalidUpgradeBuffer)
    } else if p.spill_account != spill_account {
        Some(TeamWalletError::InvalidData)
    } else if !derived_program_data(program_data, program_id) {
        Some(TeamWalletError::InvalidProgramData)
    } else {
        None
    }
}

/// Executes an upgrade proposal once its votes reach the share of the voters that the
/// threshold percentage asks for, rounded up. Returns the loader's upgrade instruction,
/// under the team wallet's authority, refunding the buffer's lamports to the proposal's
/// spill account.
pub fn execute_upgrade_proposal(
    proposal: &mut UpgradeProposal,
    team_wallet: &TeamWallet,
    team_wallet_key: Pubkey,
    program_id: Pubkey,
    program_data: Pubkey,
    buffer: Pubkey,
    spill_account: Pubkey,
) -> (r: Result<OutsideCall, TeamWalletError>)
    ensures
        match r {
            Err(e) => execute_upgrade_error(*old(proposal), *team_wallet, program_id, program_data, buffer, spill_account) == Some(e)
                && *final(proposal) == *old(proposal),
            Ok(call) => {
                &&& execute_upgrade_error(*old(proposal), *team_wallet, program_id, program_data, buffer, spill_account) is None
                &&& call matches OutsideCall::Invoke { instruction }
                &&& is_upgrade_instruction(instruction, program_id, buffer, team_wallet_key, spill_account)
                &&& *final(proposal) == (UpgradeProposal { executed: true, ..*old(proposal) })
            },
        },
        r is Ok ==> old(proposal).votes_for >= team_wallet.votes_required(),
{
    if proposal.executed {
        return Err(TeamWalletError::ProposalAlreadyExecuted);
    }
    if (proposal.votes_for as u16) < team_wallet.votes_needed() {
        return Err(TeamWalletError::InsufficientVotes);
    }
    if !key_eq(&proposal.new_buffer, &buffer) {
        return Err(TeamWalletError::InvalidUpgradeBuffer);
    }
    if !key_eq(&proposal.spill_account, &spill_account) {
        return Err(TeamWalletError::InvalidData);
    }
    if !check_program_data(&program_id, &program_data) {
        return Err(TeamWalletError::InvalidProgramData);
    }
    let instruction = upgrade_instruction(&program_id, &buffer, &team_wallet_key, &spill_account);
    proposal.executed = true;
    Ok(OutsideCall::Invoke { instruction })
}

/// Why `voter`'s vote on an upgrade proposal is refused, checked in this order; any member
/// of the wallet at the time of the vote may vote once.
pub open spec fn vote_upgrade_error(p: UpgradeProposal, w: TeamWallet, voter: Pubkey) -> Option<TeamWalletError> {
    if p.executed {
        Some(TeamWalletError::ProposalAlreadyExecuted)
    } else if !w.is_member(voter) {
        Some(TeamWalletError::NotAVoter)
    } else if p.voters_voted@.contains(voter) {
        Some(TeamWalletError::AlreadyVoted)
    } else {
        None
    }
}

/// Records `voter`'s vote on an upgrade proposal; counts stop at the largest byte.
pub fn vote_upgrade_proposal(
    proposal: &mut UpgradeProposal,
    team_wallet: &TeamWallet,
    voter: Pubkey,
    vote_for: bool,
) -> (r: Result<(), TeamWalletError>)
    requires
        old(proposal).wf(),
    ensures
        match r {
            Err(e) => vote_upgrade_error(*old(proposal), *team_wallet, voter) == Some(e)
                && *final(proposal) == *old(proposal),
            Ok(()) => {
                let p = *old(proposal);
                &&& vote_upgrade_error(p, *team_wallet, voter) is None
                &&& final(proposal).voters_voted@ == p.voters_voted@.push(voter)
                &&& *final(proposal) == (UpgradeProposal {
                    votes_for: if vote_for { saturating_inc(p.votes_for) } else { p.votes_for },
                    votes_against: if vote_for { p.votes_against } else { saturating_inc(p.votes_against) },
                    voters_voted: final(proposal).voters_voted,
                    ..p
                })
            },
        },
        final(proposal).wf(),
{
    if proposal.executed {
        return Err(TeamWalletError::ProposalAlreadyExecuted);
    }
    if !is_member(team_wallet, &voter) {
        return Err(TeamWalletError::NotAVoter);
    }
    if contains_key(&proposal.voters_voted, &voter) {
        return Err(TeamWalletError::AlreadyVoted);
    }
    let ghost before = proposal.voters_voted@;
    proposal.voters_voted.push(voter);
    if vote_for {
        proposal.votes_for = proposal.votes_for.saturating_add(1);
    } else {
        proposal.votes_against = proposal.votes_against.saturating_add(1);
    }
    proof {
        let s = proposal.voters_voted@;
        assert forall|a: int, b: int| 0 <= a < s.len() && 0 <= b < s.len() && a != b implies s[a]
            != s[b] by {
            if a == before.len() {
                assert(s[b] == before[b]);
            } else if b == before.len() {
                assert(s[a] == before[a]);
            } else {
                assert(s[a] == before[a] && s[b] == before[b]);
            }
        }
    }
    Ok(())
}

/// Why `closer` may not close an upgrade proposal's account: it must not be executed, and
/// only the owner or a contributor may close it.
pub open spec fn close_upgrade_error(p: UpgradeProposal, w: TeamWallet, closer: Pubkey) -> Option<TeamWalletError> {
    if p.executed {
        Some(TeamWalletError::ProposalAlreadyExecuted)
    } else if !(closer == w.owner || w.contributors@.contains(closer)) {
        Some(TeamWalletError::NotAVoterOrContributor)
    } else {
        None
    }
}

/// Allows closing an unexecuted upgrade proposal's account, its rent going to the spill
/// account; `Ok` means it is closed.
pub fn close_upgrade_proposal(proposal: &UpgradeProposal, team_wallet: &TeamWallet, closer: Pubkey) -> (r: Result<(), TeamWalletError>)
    ensures
        match r {
            Err(e) => close_upgrade_error(*proposal, *team_wallet, closer) == Some(e),
            Ok(()) => close_upgrade_error(*proposal, *team_wallet, closer) is None,
        },
{
    if proposal.executed {
        return Err(TeamWalletError::ProposalAlreadyExecuted);
    }
    if !(key_eq(&closer, &team_wallet.owner) || contains_key(&team_wallet.contributors, &closer)) {
        return Err(TeamWalletError::NotAVoterOrContributor);
    }
    Ok(())
}

} // verus!
