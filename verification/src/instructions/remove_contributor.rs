//! Removing a contributor, by the owner.

use vstd::prelude::*;
use crate::errors::TeamWalletError;
use crate::pubkey::{Pubkey, contains_key, remove_key, without, lemma_without_no_dup};
use crate::state::team_wallet::TeamWallet;

verus! {

/// Why removing `contributor` is refused.
pub open spec fn remove_contributor_error(w: TeamWallet, contributor: Pubkey) -> Option<
    TeamWalletError,
> {
    if !w.contributors@.contains(contributor) {
        Some(TeamWalletError::ContributorNotFound)
    } else {
        None
    }
}

/// The wallet after `contributor` was taken out of the contributors.
pub open spec fn contributor_removed(old: TeamWallet, new: TeamWallet, contributor: Pubkey) -> bool {
    &&& new.contributors@ == without(old.contributors@, contributor)
    &&& new.contributors@.len() == old.contributors@.len() - 1
    &&& new.voters@ == old.voters@
    &&& new.voter_count == old.voter_count
    &&& new.same_settings(&old)
}

/// Takes `contributor_pubkey` out of the contributors.
pub fn remove_contributor(team_wallet: &mut TeamWallet, contributor_pubkey: Pubkey) -> (r: Result<
    (),
    TeamWalletError,
>)
    requires
        old(team_wallet).wf(),
    ensures
        match r {
            Err(e) => remove_contributor_error(*old(team_wallet), contributor_pubkey) == Some(e)
                && *final(team_wallet) == *old(team_wallet),
            Ok(()) => remove_contributor_error(*old(team_wallet), contributor_pubkey) is None
                && contributor_removed(*old(team_wallet), *final(team_wallet), contributor_pubkey),
        },
        final(team_wallet).wf(),
{
    if !contains_key(&team_wallet.contributors, &contributor_pubkey) {
        return Err(TeamWalletError::ContributorNotFound);
    }
    proof {
        lemma_without_no_dup(team_wallet.contributors@, contributor_pubkey);
    }
    team_wallet.contributors = remove_key(&team_wallet.contributors, &contributor_pubkey);
    Ok(())
}

} // verus!
