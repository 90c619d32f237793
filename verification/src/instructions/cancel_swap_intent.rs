//! Cancelling and closing swap intents; each closes the intent's account.

use vstd::prelude::*;
use crate::errors::TeamWalletError;
use crate::pubkey::{Pubkey, key_eq};
use crate::state::swap_intent::SwapIntent;
use crate::state::team_wallet::TeamWallet;

verus! {

/// Why `canceller` may not cancel the intent: it must be open, and only its proposer or
/// the owner may cancel it.
pub open spec fn cancel_swap_intent_error(i: SwapIntent, owner: Pubkey, canceller: Pubkey) -> Option<TeamWalletError> {
    if i.executed {
        Some(TeamWalletError::ProposalAlreadyExecuted)
    } else if i.cancelled {
        Some(TeamWalletError::ProposalAlreadyCancelled)
    } else if !(canceller == i.proposer || canceller == owner) {
        Some(TeamWalletError::NotAuthorizedToCancel)
    } else {
        None
    }
}

/// Allows cancelling an open intent, at its proposer's or the owner's request; `Ok` means
/// its account is closed, its rent going to the proposer.
pub fn cancel_swap_intent(swap_intent: &SwapIntent, team_wallet: &TeamWallet, canceller: Pubkey) -> (r: Result<(), TeamWalletError>)
    ensures
        match r {
            Err(e) => cancel_swap_intent_error(*swap_intent, team_wallet.owner, canceller) == Some(e),
            Ok(()) => cancel_swap_intent_error(*swap_intent, team_wallet.owner, canceller) is None,
        },
{
    if swap_intent.executed {
        return Err(TeamWalletError::ProposalAlreadyExecuted);
    }
    if swap_intent.cancelled {
        return Err(TeamWalletError::ProposalAlreadyCancelled);
    }
    let is_proposer = key_eq(&canceller, &swap_intent.proposer);
    let is_owner = key_eq(&canceller, &team_wallet.owner);
    if !(is_proposer || is_owner) {
        return Err(TeamWalletError::NotAuthorizedToCancel);
    }
    Ok(())
}

/// Why an expired intent may not be cancelled at `now`: it must have expired or passed its
/// execution window, and not have been executed.
pub open spec fn cancel_expired_swap_intent_error(i: SwapIntent, now: i64) -> Option<TeamWalletError> {
    if !(now > i.expires_at || (i.approved && now > i.deadline())) {
        Some(TeamWalletError::ProposalNotExpired)
    } else if i.executed {
        Some(TeamWalletError::ProposalAlreadyExecuted)
    } else {
        None
    }
}

/// Allows anyone to cancel an intent that expired or missed its window; `Ok` means its
/// account is closed, its rent going to the proposer.
pub fn cancel_expired_swap_intent(swap_intent: &SwapIntent, now: i64) -> (r: Result<(), TeamWalletError>)
    requires
        swap_intent.approved ==> i64::MIN <= swap_intent.deadline() <= i64::MAX,
    ensures
        match r {
            Err(e) => cancel_expired_swap_intent_error(*swap_intent, now) == Some(e),
            Ok(()) => cancel_expired_swap_intent_error(*swap_intent, now) is None,
        },
{
    let is_expired = swap_intent.is_expired(now);
    let is_exec_expired = swap_intent.is_execution_expired(now);
    if !(is_expired || is_exec_expired) {
        return Err(TeamWalletError::ProposalNotExpired);
    }
    if swap_intent.executed {
        return Err(TeamWalletError::ProposalAlreadyExecuted);
    }
    Ok(())
}

/// Why `closer` may not close the intent: it must be executed, and only its proposer or
/// the owner may close it.
pub open spec fn close_swap_intent_error(i: SwapIntent, owner: Pubkey, closer: Pubkey) -> Option<TeamWalletError> {
    if !i.executed {
        Some(TeamWalletError::ProposalNotExecuted)
    } else if !(closer == i.proposer || closer == owner) {
        Some(TeamWalletError::NotAuthorizedToCancel)
    } else {
        None
    }
}

/// Allows closing an executed intent's account to reclaim its rent; `Ok` means it is closed.
pub fn close_swap_intent(swap_intent: &SwapIntent, team_wallet: &TeamWallet, closer: Pubkey) -> (r: Result<(), TeamWalletError>)
    ensures
        match r {
            Err(e) => close_swap_intent_error(*swap_intent, team_wallet.owner, closer) == Some(e),
            Ok(()) => close_swap_intent_error(*swap_intent, team_wallet.owner, closer) is None,
        },
{
    if !swap_intent.executed {
        return Err(TeamWalletError::ProposalNotExecuted);
    }
    let is_proposer = key_eq(&closer, &swap_intent.proposer);
    let is_owner = key_eq(&closer, &team_wallet.owner);
    if !(is_proposer || is_owner) {
        return Err(TeamWalletError::NotAuthorizedToCancel);
    }
    Ok(())
}

} // verus!
