//! Creating a team wallet.

use vstd::prelude::*;
use crate::errors::TeamWalletError;
use crate::pubkey::{Pubkey, contains_key, has_duplicates};
use crate::state::team_wallet::TeamWallet;

verus! {

/// Most voters that may be named at creation; the owner makes one more.
pub const MAX_INITIAL_VOTERS: usize = 10;

/// Why creating a wallet with these settings is refused, checked in this order.
pub open spec fn initialize_error(owner: Pubkey, vote_threshold: u8, voters: Seq<Pubkey>) -> Option<
    TeamWalletError,
> {
    if voters.len() > MAX_INITIAL_VOTERS {
        Some(TeamWalletError::MaxVotersReached)
    } else if !voters.no_duplicates() {
        Some(TeamWalletError::DuplicateVoter)
    } else if voters.contains(owner) {
        Some(TeamWalletError::OwnerInMembersList)
    } else if !(1 <= vote_threshold <= 100) {
        Some(TeamWalletError::InvalidThreshold)
    } else {
        None
    }
}

/// Creates a wallet owned by `owner`, whose voters are the owner followed by `voters`.
pub fn initialize_team_wallet(
    owner: Pubkey,
    name: String,
    vote_threshold: u8,
    voters: Vec<Pubkey>,
    bump: u8,
) -> (r: Result<TeamWallet, TeamWalletError>)
    ensures
        match r {
            Err(e) => initialize_error(owner, vote_threshold, voters@) == Some(e),
            Ok(w) => {
                &&& initialize_error(owner, vote_threshold, voters@) is None
                &&& w.owner == owner
                &&& w.name@ == name@
                &&& w.voters@ == seq![owner] + voters@
                &&& w.contributors@.len() == 0
                &&& w.voter_count as int == voters@.len() + 1
                &&& w.vote_threshold == vote_threshold
                &&& w.proposal_count == 0
                &&& w.bump == bump
                &&& w.wf()
                &&& w.threshold_valid()
            },
        },
{
    if voters.len() > MAX_INITIAL_VOTERS {
        return Err(TeamWalletError::MaxVotersReached);
    }
    if has_duplicates(&voters) {
        return Err(TeamWalletError::DuplicateVoter);
    }
    if contains_key(&voters, &owner) {
        return Err(TeamWalletError::OwnerInMembersList);
    }
    if !(vote_threshold >= 1 && vote_threshold <= 100) {
        return Err(TeamWalletError::InvalidThreshold);
    }
    let mut all_voters: Vec<Pubkey> = Vec::new();
    all_voters.push(owner);
    let mut i: usize = 0;
    while i < voters.len()
        invariant
            i <= voters.len(),
            all_voters@ == seq![owner] + voters@.take(i as int),
        decreases voters.len() - i,
    {
        all_voters.push(voters[i]);
        proof {
            assert(voters@.take(i as int + 1) =~= voters@.take(i as int).push(voters@[i as int]));
        }
        i = i + 1;
    }
    proof {
        assert(voters@.take(voters.len() as int) =~= voters@);
        let s = all_voters@;
        assert forall|a: int, b: int| 0 <= a < s.len() && 0 <= b < s.len() && a != b implies s[a]
            != s[b] by {
            if a == 0 && b > 0 {
                assert(s[b] == voters@[b - 1]);
            } else if b == 0 && a > 0 {
                assert(s[a] == voters@[a - 1]);
            } else if a > 0 && b > 0 {
                assert(s[a] == voters@[a - 1] && s[b] == voters@[b - 1]);
            }
        }
    }
    let voter_count: u8 = all_voters.len() as u8;
    Ok(
        TeamWallet {
            owner,
            name,
            voters: all_voters,
            contributors: Vec::new(),
            voter_count,
            vote_threshold,
            proposal_count: 0,
            bump,
        },
    )
}

} // verus!
