//! Removing a voter, by the owner.

use vstd::prelude::*;
use crate::errors::TeamWalletError;
use crate::pubkey::{Pubkey, contains_key, key_eq, remove_key, without, lemma_without_no_dup};
use crate::state::team_wallet::TeamWallet;

verus! {

/// Why removing `voter` is refused, checked in this order.
pub open spec fn remove_voter_error(w: TeamWallet, voter: Pubkey) -> Option<TeamWalletError> {
    if !w.voters@.contains(voter) {
        Some(TeamWalletError::VoterNotFound)
    } else if voter == w.owner {
        Some(TeamWalletError::CannotRemoveOwner)
    } else {
        None
    }
}

/// Takes `voter_pubkey` out of the voters; the threshold is left as it is.
pub fn remove_voter(team_wallet: &mut TeamWallet, voter_pubkey: Pubkey) -> (r: Result<
    (),
    TeamWalletError,
>)
    requires
        old(team_wallet).wf(),
    ensures
        match r {
            Err(e) => remove_voter_error(*old(team_wallet), voter_pubkey) == Some(e)
                && *final(team_wallet) == *old(team_wallet),
            Ok(()) => {
                &&& remove_voter_error(*old(team_wallet), voter_pubkey) is None
                &&& final(team_wallet).voters@ == without(old(team_wallet).voters@, voter_pubkey)
                &&& final(team_wallet).voters@.len() == old(team_wallet).voters@.len() - 1
                &&& final(team_wallet).contributors@ == old(team_wallet).contributors@
                &&& final(team_wallet).voter_count == old(team_wallet).voter_count - 1
                &&& final(team_wallet).same_settings(&*old(team_wallet))
            },
        },
        final(team_wallet).wf(),
{
    if !contains_key(&team_wallet.voters, &voter_pubkey) {
        return Err(TeamWalletError::VoterNotFound);
    }
    if key_eq(&voter_pubkey, &team_wallet.owner) {
        return Err(TeamWalletError::CannotRemoveOwner);
    }
    let ghost prev = team_wallet.voters@;
    proof {
        lemma_without_no_dup(prev, voter_pubkey);
        assert(prev.contains(prev[0]));
    }
    team_wallet.voters = remove_key(&team_wallet.voters, &voter_pubkey);
    team_wallet.voter_count = team_wallet.voter_count - 1;
    proof {
        let i = crate::pubkey::first_index_of(prev, voter_pubkey);
        assert(prev[i] == voter_pubkey);
        assert(i != 0);
        assert(team_wallet.voters@[0] == prev[0]);
    }
    Ok(())
}

} // verus!
