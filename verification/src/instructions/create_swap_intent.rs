//! Creating a swap intent.

use vstd::prelude::*;
use crate::errors::TeamWalletError;
use crate::instructions::delete_program::{is_member, member_error};
use crate::pubkey::{Pubkey, concat_keys, first_index_of, key_eq, position};
use crate::state::swap_intent::SwapIntent;
use crate::state::team_wallet::TeamWallet;

verus! {

broadcast use vstd::seq_lib::group_seq_properties;

/// Why creating a swap intent is refused, checked in this order: only members may propose;
/// both amounts must be positive, the mints different, the slippage at most 50%.
pub open spec fn create_swap_intent_error(
    w: TeamWallet,
    proposer: Pubkey,
    input_mint: Pubkey,
    output_mint: Pubkey,
    amount_in: u64,
    min_amount_out: u64,
    slippage_bps: u16,
) -> Option<TeamWalletError> {
    if member_error(w, proposer) is Some {
        member_error(w, proposer)
    } else if amount_in == 0 {
        Some(TeamWalletError::InvalidAmount)
    } else if min_amount_out == 0 {
        Some(TeamWalletError::InvalidMinOutput)
    } else if input_mint == output_mint {
        Some(TeamWalletError::SameMintSwap)
    } else if slippage_bps > 5000 {
        Some(TeamWalletError::SlippageTooHigh)
    } else {
        None
    }
}

/// Creates an intent to swap `amount_in` of `input_mint` for at least `min_amount_out` of
/// `output_mint`. The snapshot is the voters followed by the contributors, the proposer's
/// vote counts for it at once, and it is approved at once when one vote is all that the threshold asks for.
pub fn create_swap_intent(
    team_wallet: &TeamWallet,
    team_wallet_key: Pubkey,
    proposer: Pubkey,
    input_mint: Pubkey,
    output_mint: Pubkey,
    amount_in: u64,
    min_amount_out: u64,
    slippage_bps: u16,
    nonce: Pubkey,
    now: i64,
    bump: u8,
) -> (r: Result<SwapIntent, TeamWalletError>)
    requires
        team_wallet.wf(),
        now + SwapIntent::DEFAULT_EXPIRY <= i64::MAX,
    ensures
        match r {
            Err(e) => create_swap_intent_error(*team_wallet, proposer, input_mint, output_mint, amount_in, min_amount_out, slippage_bps) == Some(e),
            Ok(i) => {
                let snapshot = team_wallet.voters@ + team_wallet.contributors@;
                let approved = 1 >= team_wallet.votes_required();
                &&& create_swap_intent_error(*team_wallet, proposer, input_mint, output_mint, amount_in, min_amount_out, slippage_bps) is None
                &&& i == (SwapIntent {
                    team_wallet: team_wallet_key,
                    proposer,
                    input_mint,
                    output_mint,
                    amount_in,
                    min_amount_out,
                    slippage_bps,
                    votes_for: 1,
                    votes_against: 0,
                    voters_voted: i.voters_voted,
                    snapshot_voters: i.snapshot_voters,
                    executed: false,
                    cancelled: false,
                    created_at: now,
                    expires_at: (now + SwapIntent::DEFAULT_EXPIRY) as i64,
                    approved,
                    approved_at: if approved { now } else { 0 },
                    execution_window_seconds: SwapIntent::DEFAULT_EXECUTION_WINDOW,
                    bump,
                    nonce,
                })
                &&& i.snapshot_voters@ == snapshot
                &&& i.voters_voted@ == seq![first_index_of(snapshot, proposer) as u8]
                &&& i.wf()
            },
        },
{
    if !is_member(team_wallet, &proposer) {
        return Err(TeamWalletError::NotAVoterOrContributor);
    }
    if amount_in == 0 {
        return Err(TeamWalletError::InvalidAmount);
    }
    if min_amount_out == 0 {
        return Err(TeamWalletError::InvalidMinOutput);
    }
    if key_eq(&input_mint, &output_mint) {
        return Err(TeamWalletError::SameMintSwap);
    }
    if slippage_bps > 5000 {
        return Err(TeamWalletError::SlippageTooHigh);
    }
    let created_at = now;
    let expires_at = created_at + SwapIntent::DEFAULT_EXPIRY;
    let snapshot = concat_keys(&team_wallet.voters, &team_wallet.contributors);
    proof {
        if team_wallet.voters@.contains(proposer) {
            let j = choose|j: int| 0 <= j < team_wallet.voters@.len() && team_wallet.voters@[j] == proposer;
            assert(snapshot@[j] == proposer);
        } else if team_wallet.contributors@.contains(proposer) {
            let j = choose|j: int| 0 <= j < team_wallet.contributors@.len() && team_wallet.contributors@[j] == proposer;
            assert(snapshot@[team_wallet.voters@.len() + j] == proposer);
        } else {
            assert(snapshot@[0] == proposer);
        }
        assert(snapshot@.contains(proposer));
    }
    let proposer_index: u8 = match position(&snapshot, &proposer) {
        Some(i) => i as u8,
        None => 0,
    };
    let mut voters_voted: Vec<u8> = Vec::new();
    voters_voted.push(proposer_index);
    let votes_for: u8 = 1;
    let approved = votes_for as u16 >= team_wallet.votes_needed();
    let approved_at: i64 = if approved {
        created_at
    } else {
        0
    };
    Ok(
        SwapIntent {
            team_wallet: team_wallet_key,
            proposer,
            input_mint,
            output_mint,
            amount_in,
            min_amount_out,
            slippage_bps,
            votes_for,
            votes_against: 0,
            voters_voted,
            snapshot_voters: snapshot,
            executed: false,
            cancelled: false,
            created_at,
            expires_at,
            approved,
            approved_at,
            execution_window_seconds: SwapIntent::DEFAULT_EXECUTION_WINDOW,
            bump,
            nonce,
        },
    )
}

} // verus!
