//! Setting the vote threshold directly, by the owner.

use vstd::prelude::*;
use crate::errors::TeamWalletError;
use crate::state::team_wallet::TeamWallet;

verus! {

/// Why setting the threshold to `new_threshold` is refused.
pub open spec fn set_threshold_error(w: TeamWallet, new_threshold: u8) -> Option<TeamWalletError> {
    if new_threshold < 1 || new_threshold > 100 {
        Some(TeamWalletError::InvalidThreshold)
    } else {
        None
    }
}

/// Sets the threshold to `new_threshold`, a percentage of the voters from 1 to 100.
pub fn set_threshold(team_wallet: &mut TeamWallet, new_threshold: u8) -> (r: Result<
    (),
    TeamWalletError,
>)
    ensures
        match r {
            Err(e) => set_threshold_error(*old(team_wallet), new_threshold) == Some(e)
                && *final(team_wallet) == *old(team_wallet),
            Ok(()) => {
                &&& set_threshold_error(*old(team_wallet), new_threshold) is None
                &&& final(team_wallet).vote_threshold == new_threshold
                &&& final(team_wallet).same_but_threshold(&*old(team_wallet))
                &&& final(team_wallet).threshold_valid()
            },
        },
        old(team_wallet).wf() ==> final(team_wallet).wf(),
{
    if new_threshold < 1 {
        return Err(TeamWalletError::InvalidThreshold);
    }
    if new_threshold > 100 {
        return Err(TeamWalletError::InvalidThreshold);
    }
    team_wallet.vote_threshold = new_threshold;
    Ok(())
}

} // verus!
