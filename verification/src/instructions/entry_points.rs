//! Entry points that specialize the general proposal instructions to transfers.

use vstd::prelude::*;
use crate::cpi::{AccountRef, OutsideCall};
use crate::errors::TeamWalletError;
use crate::instructions::create_proposal::{create_proposal, create_proposal_error, proposal_created};
use crate::instructions::execute_proposal::{execute_outcome, execute_proposal};
use crate::pubkey::Pubkey;
use crate::state::proposal::{Proposal, ProposalAction};
use crate::state::team_wallet::TeamWallet;

verus! {

/// Proposes transferring `amount` lamports to `recipient`; `random_pubkey` makes the
/// proposal's address unique.
pub fn create_proposal_sol(
    team_wallet: &mut TeamWallet,
    team_wallet_key: Pubkey,
    proposer: Pubkey,
    amount: u64,
    recipient: Pubkey,
    random_pubkey: Pubkey,
    now: i64,
    bump: u8,
) -> (r: Result<Proposal, TeamWalletError>)
    requires
        old(team_wallet).wf(),
        now + Proposal::DEFAULT_EXPIRY <= i64::MAX,
    ensures
        ({
            let action = ProposalAction::TransferSol { amount, recipient };
            match r {
                Err(e) => create_proposal_error(*old(team_wallet), proposer, action) == Some(e)
                    && *final(team_wallet) == *old(team_wallet),
                Ok(p) => create_proposal_error(*old(team_wallet), proposer, action) is None
                    && proposal_created(*old(team_wallet), *final(team_wallet), team_wallet_key, proposer, action, random_pubkey, now, bump, p),
            }
        }),
        final(team_wallet).wf(),
{
    create_proposal(
        team_wallet,
        team_wallet_key,
        proposer,
        ProposalAction::TransferSol { amount, recipient },
        random_pubkey,
        now,
        bump,
    )
}

/// Proposes transferring `amount` tokens of `mint` to `recipient`; `random_pubkey` makes
/// the proposal's address unique.
pub fn create_proposal_token(
    team_wallet: &mut TeamWallet,
    team_wallet_key: Pubkey,
    proposer: Pubkey,
    amount: u64,
    recipient: Pubkey,
    mint: Pubkey,
    random_pubkey: Pubkey,
    now: i64,
    bump: u8,
) -> (r: Result<Proposal, TeamWalletError>)
    requires
        old(team_wallet).wf(),
        now + Proposal::DEFAULT_EXPIRY <= i64::MAX,
    ensures
        ({
            let action = ProposalAction::TransferToken { amount, recipient, mint };
            match r {
                Err(e) => create_proposal_error(*old(team_wallet), proposer, action) == Some(e)
                    && *final(team_wallet) == *old(team_wallet),
                Ok(p) => create_proposal_error(*old(team_wallet), proposer, action) is None
                    && proposal_created(*old(team_wallet), *final(team_wallet), team_wallet_key, proposer, action, random_pubkey, now, bump, p),
            }
        }),
        final(team_wallet).wf(),
{
    create_proposal(
        team_wallet,
        team_wallet_key,
        proposer,
        ProposalAction::TransferToken { amount, recipient, mint },
        random_pubkey,
        now,
        bump,
    )
}

/// Executes an approved SOL transfer proposal, with no swap data.
pub fn execute_proposal_sol(
    proposal: &mut Proposal,
    team_wallet: &mut TeamWallet,
    team_wallet_key: Pubkey,
    team_wallet_lamports: u64,
    remaining_accounts: &Vec<AccountRef>,
    now: i64,
) -> (r: Result<OutsideCall, TeamWalletError>)
    requires
        old(team_wallet).wf(),
        old(proposal).approved ==> i64::MIN <= old(proposal).window_deadline() <= i64::MAX,
    ensures
        execute_outcome(*old(proposal), *final(proposal), *old(team_wallet), *final(team_wallet),
            team_wallet_key, team_wallet_lamports, remaining_accounts@, None, now, r),
        final(team_wallet).wf(),
{
    execute_proposal(proposal, team_wallet, team_wallet_key, team_wallet_lamports, remaining_accounts, None, now)
}

/// Executes an approved token transfer proposal, with no swap data.
pub fn execute_proposal_token(
    proposal: &mut Proposal,
    team_wallet: &mut TeamWallet,
    team_wallet_key: Pubkey,
    team_wallet_lamports: u64,
    remaining_accounts: &Vec<AccountRef>,
    now: i64,
) -> (r: Result<OutsideCall, TeamWalletError>)
    requires
        old(team_wallet).wf(),
        old(proposal).approved ==> i64::MIN <= old(proposal).window_deadline() <= i64::MAX,
    ensures
        execute_outcome(*old(proposal), *final(proposal), *old(team_wallet), *final(team_wallet),
            team_wallet_key, team_wallet_lamports, remaining_accounts@, None, now, r),
        final(team_wallet).wf(),
{
    execute_proposal(proposal, team_wallet, team_wallet_key, team_wallet_lamports, remaining_accounts, None, now)
}

} // verus!
