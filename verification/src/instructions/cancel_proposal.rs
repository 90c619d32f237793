//! Cancelling and closing proposals.

use vstd::prelude::*;
use crate::errors::TeamWalletError;
use crate::pubkey::{Pubkey, key_eq};
use crate::state::proposal::Proposal;
use crate::state::team_wallet::TeamWallet;

verus! {

/// Why `canceller` may not cancel the proposal: it must still be open, and only its
/// proposer or the wallet's owner may cancel it.
pub open spec fn cancel_error(p: Proposal, owner: Pubkey, canceller: Pubkey) -> Option<TeamWalletError> {
    if p.executed {
        Some(TeamWalletError::ProposalAlreadyExecuted)
    } else if p.cancelled {
        Some(TeamWalletError::ProposalAlreadyCancelled)
    } else if !(p.proposer == canceller || owner == canceller) {
        Some(TeamWalletError::NotAuthorizedToCancel)
    } else {
        None
    }
}

/// The proposal with only its cancelled flag set.
pub open spec fn cancelled_now(old: Proposal, new: Proposal) -> bool {
    &&& new.cancelled
    &&& new.same_but_votes(&old)
    &&& new.votes_for == old.votes_for
    &&& new.votes_against == old.votes_against
    &&& new.voters_voted@ == old.voters_voted@
    &&& new.approved == old.approved
    &&& new.approved_at == old.approved_at
}

/// Cancels an open proposal, at the request of its proposer or of the owner.
pub fn cancel_proposal(proposal: &mut Proposal, team_wallet: &TeamWallet, canceller: Pubkey) -> (r: Result<(), TeamWalletError>)
    ensures
        match r {
            Err(e) => cancel_error(*old(proposal), team_wallet.owner, canceller) == Some(e)
                && *final(proposal) == *old(proposal),
            Ok(()) => cancel_error(*old(proposal), team_wallet.owner, canceller) is None
                && cancelled_now(*old(proposal), *final(proposal)),
        },
        old(proposal).wf() ==> final(proposal).wf(),
{
    if proposal.executed {
        return Err(TeamWalletError::ProposalAlreadyExecuted);
    }
    if proposal.cancelled {
        return Err(TeamWalletError::ProposalAlreadyCancelled);
    }
    let is_proposer = key_eq(&proposal.proposer, &canceller);
    let is_owner = key_eq(&team_wallet.owner, &canceller);
    if !(is_proposer || is_owner) {
        return Err(TeamWalletError::NotAuthorizedToCancel);
    }
    proposal.cancelled = true;
    Ok(())
}

/// Why an expired proposal may not be cancelled at `now`: it must be open and expired.
pub open spec fn cancel_expired_error(p: Proposal, now: i64) -> Option<TeamWalletError> {
    if p.executed {
        Some(TeamWalletError::ProposalAlreadyExecuted)
    } else if p.cancelled {
        Some(TeamWalletError::ProposalAlreadyCancelled)
    } else if !(now > p.expires_at) {
        Some(TeamWalletError::ProposalNotExpired)
    } else {
        None
    }
}

/// Cancels an open proposal that has expired; anyone may ask.
pub fn cancel_expired_proposal(proposal: &mut Proposal, now: i64) -> (r: Result<(), TeamWalletError>)
    ensures
        match r {
            Err(e) => cancel_expired_error(*old(proposal), now) == Some(e) && *final(proposal) == *old(
                proposal,
            ),
            Ok(()) => cancel_expired_error(*old(proposal), now) is None && cancelled_now(
                *old(proposal),
                *final(proposal),
            ),
        },
        old(proposal).wf() ==> final(proposal).wf(),
{
    if proposal.executed {
        return Err(TeamWalletError::ProposalAlreadyExecuted);
    }
    if proposal.cancelled {
        return Err(TeamWalletError::ProposalAlreadyCancelled);
    }
    if !proposal.is_expired(now) {
        return Err(TeamWalletError::ProposalNotExpired);
    }
    proposal.cancelled = true;
    Ok(())
}

/// Why `closer` may not close the proposal's account: it must be executed or cancelled,
/// and only its proposer or the owner may close it.
pub open spec fn close_error(p: Proposal, owner: Pubkey, closer: Pubkey) -> Option<TeamWalletError> {
    if !(p.executed || p.cancelled) {
        Some(TeamWalletError::ProposalNotExpired)
    } else if !(p.proposer == closer || owner == closer) {
        Some(TeamWalletError::NotAuthorizedToCancel)
    } else {
        None
    }
}

/// Allows closing a finished proposal's account, its rent going back; `Ok` means it is closed.
pub fn close_proposal(proposal: &Proposal, team_wallet: &TeamWallet, closer: Pubkey) -> (r: Result<(), TeamWalletError>)
    ensures
        match r {
            Err(e) => close_error(*proposal, team_wallet.owner, closer) == Some(e),
            Ok(()) => close_error(*proposal, team_wallet.owner, closer) is None,
        },
{
    if !(proposal.executed || proposal.cancelled) {
        return Err(TeamWalletError::ProposalNotExpired);
    }
    let is_proposer = key_eq(&proposal.proposer, &closer);
    let is_owner = key_eq(&team_wallet.owner, &closer);
    if !(is_proposer || is_owner) {
        return Err(TeamWalletError::NotAuthorizedToCancel);
    }
    Ok(())
}

} // verus!
