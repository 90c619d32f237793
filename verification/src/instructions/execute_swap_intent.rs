//! Executing an approved swap intent through a swap program.

use vstd::prelude::*;
use crate::cpi::{AccountRef, InstructionPlan, OutsideCall, TokenAccountState};
use crate::errors::TeamWalletError;
use crate::pubkey::{Pubkey, key_eq};
use crate::state::swap_intent::SwapIntent;

verus! {

/// How an intent's swap instruction names a passed account: the team wallet signs and is
/// written; any other account keeps its writability and does not sign.
pub open spec fn intent_meta(a: AccountRef, team_wallet_key: Pubkey) -> AccountRef {
    if a.key == team_wallet_key {
        AccountRef { key: a.key, is_signer: true, is_writable: true }
    } else {
        AccountRef { key: a.key, is_signer: false, is_writable: a.is_writable }
    }
}

/// The accounts that an intent's swap instruction names: the passed ones after the first.
pub open spec fn intent_metas(accounts: Seq<AccountRef>, team_wallet_key: Pubkey) -> Seq<AccountRef> {
    accounts.skip(1).map_values(|a: AccountRef| intent_meta(a, team_wallet_key))
}

/// Names the passed accounts after the first in the swap instruction.
pub fn intent_account_metas(accounts: &Vec<AccountRef>, team_wallet_key: &Pubkey) -> (r: Vec<AccountRef>)
    requires
        accounts.len() >= 1,
    ensures
        r@ == intent_metas(accounts@, *team_wallet_key),
{
    let mut out: Vec<AccountRef> = Vec::new();
    let mut i: usize = 1;
    while i < accounts.len()
        invariant
            1 <= i <= accounts.len(),
            out@ == accounts@.subrange(1, i as int).map_values(
                |a: AccountRef| intent_meta(a, *team_wallet_key),
            ),
        decreases accounts.len() - i,
    {
        let a = accounts[i];
        if key_eq(&a.key, team_wallet_key) {
            out.push(AccountRef { key: a.key, is_signer: true, is_writable: true });
        } else if a.is_writable {
            out.push(AccountRef { key: a.key, is_signer: false, is_writable: true });
        } else {
            out.push(AccountRef { key: a.key, is_signer: false, is_writable: false });
        }
        proof {
            assert(accounts@.subrange(1, i as int + 1) =~= accounts@.subrange(1, i as int).push(a));
        }
        i = i + 1;
    }
    assert(accounts@.subrange(1, accounts.len() as int) =~= accounts@.skip(1));
    out
}

/// Why executing the intent at `now` is refused, checked in this order: it must be open,
/// approved and within its window; the token accounts must hold the intent's mints, the
/// input one owned by the team wallet and holding the amount; the swap program and its
/// accounts must be passed.
pub open spec fn execute_swap_intent_error(
    i: SwapIntent,
    team_wallet_key: Pubkey,
    input: TokenAccountState,
    output: TokenAccountState,
    remaining: Seq<AccountRef>,
    now: i64,
) -> Option<TeamWalletError> {
    if i.executed {
        Some(TeamWalletError::ProposalAlreadyExecuted)
    } else if i.cancelled {
        Some(TeamWalletError::ProposalAlreadyCancelled)
    } else if !i.approved {
        Some(TeamWalletError::InsufficientVotes)
    } else if now > i.deadline() {
        Some(TeamWalletError::SwapExecutionWindowExpired)
    } else if input.mint != i.input_mint {
        Some(TeamWalletError::InvalidMint)
    } else if output.mint != i.output_mint {
        Some(TeamWalletError::InvalidMint)
    } else if input.owner != team_wallet_key {
        Some(TeamWalletError::InvalidTokenAccountOwner)
    } else if input.amount < i.amount_in {
        Some(TeamWalletError::InsufficientBalance)
    } else if remaining.len() < 2 {
        Some(TeamWalletError::InvalidRemainingAccounts)
    } else {
        None
    }
}

/// Executes an approved swap intent: returns the swap instruction to the program passed
/// first, with the other passed accounts and `swap_data`, and marks the intent executed.
/// The runtime then requires that the output account gained at least the intent's minimum.
pub fn execute_swap_intent(
    swap_intent: &mut SwapIntent,
    team_wallet_key: Pubkey,
    input_token_account: TokenAccountState,
    output_token_account: TokenAccountState,
    remaining_accounts: &Vec<AccountRef>,
    swap_data: Vec<u8>,
    now: i64,
) -> (r: Result<OutsideCall, TeamWalletError>)
    requires
        old(swap_intent).approved ==> i64::MIN <= old(swap_intent).deadline() <= i64::MAX,
    ensures
        match r {
            Err(e) => execute_swap_intent_error(*old(swap_intent), team_wallet_key, input_token_account, output_token_account, remaining_accounts@, now) == Some(e)
                && *final(swap_intent) == *old(swap_intent),
            Ok(call) => {
                &&& execute_swap_intent_error(*old(swap_intent), team_wallet_key, input_token_account, output_token_account, remaining_accounts@, now) is None
                &&& call matches OutsideCall::Swap { instruction, min_amount_out }
                &&& min_amount_out == old(swap_intent).min_amount_out
                &&& instruction.program_id == remaining_accounts@[0].key
                &&& instruction.accounts@ == intent_metas(remaining_accounts@, team_wallet_key)
                &&& instruction.data@ == swap_data@
                &&& *final(swap_intent) == (SwapIntent { executed: true, ..*old(swap_intent) })
            },
        },
{
    if swap_intent.executed {
        return Err(TeamWalletError::ProposalAlreadyExecuted);
    }
    if swap_intent.cancelled {
        return Err(TeamWalletError::ProposalAlreadyCancelled);
    }
    if !swap_intent.approved {
        return Err(TeamWalletError::InsufficientVotes);
    }
    if !swap_intent.is_executable(now) {
        return Err(TeamWalletError::SwapExecutionWindowExpired);
    }
    if !key_eq(&input_token_account.mint, &swap_intent.input_mint) {
        return Err(TeamWalletError::InvalidMint);
    }
    if !key_eq(&output_token_account.mint, &swap_intent.output_mint) {
        return Err(TeamWalletError::InvalidMint);
    }
    if !key_eq(&input_token_account.owner, &team_wallet_key) {
        return Err(TeamWalletError::InvalidTokenAccountOwner);
    }
    if input_token_account.amount < swap_intent.amount_in {
        return Err(TeamWalletError::InsufficientBalance);
    }
    if remaining_accounts.len() < 2 {
        return Err(TeamWalletError::InvalidRemainingAccounts);
    }
    let accounts = intent_account_metas(remaining_accounts, &team_wallet_key);
    let instruction = InstructionPlan { program_id: remaining_accounts[0].key, accounts, data: swap_data };
    swap_intent.executed = true;
    Ok(OutsideCall::Swap { instruction, min_amount_out: swap_intent.min_amount_out })
}

} // verus!
