//! Adding a contributor, by the owner.

use vstd::prelude::*;
use crate::errors::TeamWalletError;
use crate::pubkey::{Pubkey, contains_key};
use crate::state::team_wallet::TeamWallet;

verus! {

/// Most contributors that the owner may add directly.
pub const MAX_DIRECT_CONTRIBUTORS: usize = 10;

/// Why adding `contributor` is refused, checked in this order.
pub open spec fn add_contributor_error(w: TeamWallet, contributor: Pubkey) -> Option<
    TeamWalletError,
> {
    if w.contributors@.len() >= MAX_DIRECT_CONTRIBUTORS {
        Some(TeamWalletError::MaxContributorsReached)
    } else if w.contributors@.contains(contributor) {
        Some(TeamWalletError::ContributorAlreadyExists)
    } else if w.voters@.contains(contributor) {
        Some(TeamWalletError::AlreadyAVoter)
    } else {
        None
    }
}

/// The wallet after `contributor` was appended to the contributors.
pub open spec fn contributor_added(old: TeamWallet, new: TeamWallet, contributor: Pubkey) -> bool {
    &&& new.contributors@ == old.contributors@.push(contributor)
    &&& new.voters@ == old.voters@
    &&& new.voter_count == old.voter_count
    &&& new.same_settings(&old)
}

/// Appends `contributor_pubkey` to the contributors.
pub fn add_contributor(team_wallet: &mut TeamWallet, contributor_pubkey: Pubkey) -> (r: Result<
    (),
    TeamWalletError,
>)
    requires
        old(team_wallet).wf(),
    ensures
        match r {
            Err(e) => add_contributor_error(*old(team_wallet), contributor_pubkey) == Some(e)
                && *final(team_wallet) == *old(team_wallet),
            Ok(()) => add_contributor_error(*old(team_wallet), contributor_pubkey) is None
                && contributor_added(*old(team_wallet), *final(team_wallet), contributor_pubkey),
        },
        final(team_wallet).wf(),
{
    if team_wallet.contributors.len() >= MAX_DIRECT_CONTRIBUTORS {
        return Err(TeamWalletError::MaxContributorsReached);
    }
    if contains_key(&team_wallet.contributors, &contributor_pubkey) {
        return Err(TeamWalletError::ContributorAlreadyExists);
    }
    if contains_key(&team_wallet.voters, &contributor_pubkey) {
        return Err(TeamWalletError::AlreadyAVoter);
    }
    let ghost prev = team_wallet.contributors@;
    team_wallet.contributors.push(contributor_pubkey);
    proof {
        let s = team_wallet.contributors@;
        assert forall|a: int, b: int| 0 <= a < s.len() && 0 <= b < s.len() && a != b implies s[a]
            != s[b] by {
            if a == prev.len() {
                assert(s[b] == prev[b]);
            } else if b == prev.len() {
                assert(s[a] == prev[a]);
            } else {
                assert(s[a] == prev[a] && s[b] == prev[b]);
            }
        }
    }
    Ok(())
}

} // verus!
