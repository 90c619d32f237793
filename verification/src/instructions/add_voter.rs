//! Adding a voter, by the owner.

use vstd::prelude::*;
use crate::errors::TeamWalletError;
use crate::pubkey::{Pubkey, contains_key};
use crate::state::team_wallet::TeamWallet;

verus! {

/// Why adding `voter` is refused, checked in this order.
pub open spec fn add_voter_error(w: TeamWallet, voter: Pubkey) -> Option<TeamWalletError> {
    if w.voters@.len() >= TeamWallet::MAX_VOTERS {
        Some(TeamWalletError::MaxVotersReached)
    } else if w.voters@.contains(voter) {
        Some(TeamWalletError::VoterAlreadyExists)
    } else {
        None
    }
}

/// The wallet after `voter` was appended to the voters and counted.
pub open spec fn voter_added(old: TeamWallet, new: TeamWallet, voter: Pubkey) -> bool {
    &&& new.voters@ == old.voters@.push(voter)
    &&& new.contributors@ == old.contributors@
    &&& new.voter_count == old.voter_count + 1
    &&& new.same_settings(&old)
}

/// Appends `voter_pubkey` to the voters and counts it.
pub fn add_voter(team_wallet: &mut TeamWallet, voter_pubkey: Pubkey) -> (r: Result<
    (),
    TeamWalletError,
>)
    requires
        old(team_wallet).wf(),
    ensures
        match r {
            Err(e) => add_voter_error(*old(team_wallet), voter_pubkey) == Some(e)
                && *final(team_wallet) == *old(team_wallet),
            Ok(()) => add_voter_error(*old(team_wallet), voter_pubkey) is None && voter_added(
                *old(team_wallet),
                *final(team_wallet),
                voter_pubkey,
            ),
        },
        final(team_wallet).wf(),
{
    if team_wallet.voters.len() >= TeamWallet::MAX_VOTERS {
        return Err(TeamWalletError::MaxVotersReached);
    }
    if contains_key(&team_wallet.voters, &voter_pubkey) {
        return Err(TeamWalletError::VoterAlreadyExists);
    }
    let ghost prev = team_wallet.voters@;
    team_wallet.voters.push(voter_pubkey);
    team_wallet.voter_count = team_wallet.voter_count + 1;
    proof {
        let s = team_wallet.voters@;
        assert forall|a: int, b: int| 0 <= a < s.len() && 0 <= b < s.len() && a != b implies s[a]
            != s[b] by {
            if a == prev.len() {
                assert(prev.contains(s[b]) ==> s[b] != voter_pubkey);
                assert(s[b] == prev[b]);
            } else if b == prev.len() {
                assert(s[a] == prev[a]);
            } else {
                assert(s[a] == prev[a] && s[b] == prev[b]);
            }
        }
    }
    Ok(())
}

} // verus!
