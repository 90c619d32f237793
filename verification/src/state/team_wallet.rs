//! The team wallet: its owner, its members and its vote threshold.

use vstd::prelude::*;
use crate::pubkey::{Pubkey, has_duplicates, key_eq};

verus! {

/// The votes that `percent` percent of `count` voters make, rounded up.
pub open spec fn votes_required(count: int, percent: int) -> int {
    (count * percent + 99) / 100
}

/// The votes that `percent` percent of `count` voters make, rounded up.
pub fn required_votes(count: u8, percent: u8) -> (r: u16)
    ensures
        r == votes_required(count as int, percent as int),
{
    let c: u16 = count as u16;
    let p: u16 = percent as u16;
    assert(c * p <= 255 * 255) by (nonlinear_arith)
        requires c <= 255, p <= 255, c >= 0, p >= 0;
    let product: u16 = c * p;
    (product + 99) / 100
}

/// A wallet's voters, at most fifteen, never need more than thirty-nine votes.
pub proof fn lemma_votes_required_small(count: int, percent: int)
    requires
        0 <= count <= 15,
        0 <= percent <= 255,
    ensures
        0 <= votes_required(count, percent) <= 39,
{
    assert(0 <= count * percent <= 15 * 255) by (nonlinear_arith)
        requires 0 <= count <= 15, 0 <= percent <= 255;
}

/// A team wallet account.
pub struct TeamWallet {
    pub owner: Pubkey,
    pub name: String,
    pub voters: Vec<Pubkey>,
    pub contributors: Vec<Pubkey>,
    pub voter_count: u8,
    pub vote_threshold: u8,
    pub proposal_count: u64,
    pub bump: u8,
}

impl TeamWallet {
    /// Largest length of a wallet's name, in bytes.
    pub const MAX_NAME_LEN: usize = 32;
    /// Voters, the owner included, past which no voter is added: ten.
    pub const MAX_VOTERS: usize = 10;
    /// Most voters a wallet holds: its owner and the ten it may be created with.
    pub const MAX_HELD_VOTERS: usize = 11;
    /// Largest number of contributors.
    pub const MAX_CONTRIBUTORS: usize = 15;
    /// Bytes that a wallet account takes.
    pub const MAX_SIZE: usize = 8 + 32 + 4 + 32 + 4 + 32 * 15 + 4 + 32 * 15 + 1 + 1 + 8 + 1;

    /// What every wallet keeps: the owner is the first voter and cannot leave,
    /// nobody is listed twice in a role, the voter count is the number of voters,
    /// and neither list grows past its limit.
    pub open spec fn wf(&self) -> bool {
        &&& self.voters@.len() >= 1
        &&& self.voters@[0] == self.owner
        &&& self.voters@.no_duplicates()
        &&& self.contributors@.no_duplicates()
        &&& self.voters@.len() <= Self::MAX_HELD_VOTERS
        &&& self.contributors@.len() <= Self::MAX_CONTRIBUTORS
        &&& self.voter_count as int == self.voters@.len()
    }

    /// Whether the wallet keeps what every wallet keeps.
    pub fn is_wf(&self) -> (r: bool)
        ensures
            r == self.wf(),
    {
        self.voters.len() >= 1 && key_eq(&self.voters[0], &self.owner) && !has_duplicates(&self.voters)
            && !has_duplicates(&self.contributors) && self.voters.len() <= Self::MAX_HELD_VOTERS
            && self.contributors.len() <= Self::MAX_CONTRIBUTORS && self.voter_count as usize
            == self.voters.len()
    }

    /// The threshold is a percentage of the voters, from 1 to 100.
    pub open spec fn threshold_valid(&self) -> bool {
        1 <= self.vote_threshold <= 100
    }

    /// The votes that the threshold asks for: its percentage of the voters, rounded up.
    pub open spec fn votes_required(&self) -> int {
        votes_required(self.voter_count as int, self.vote_threshold as int)
    }

    /// The votes that the threshold asks for: its percentage of the voters, rounded up.
    pub fn votes_needed(&self) -> (r: u16)
        ensures
            r == self.votes_required(),
    {
        required_votes(self.voter_count, self.vote_threshold)
    }

    /// Whether `k` may create and vote on proposals: a voter, a contributor or the owner.
    pub open spec fn is_member(&self, k: Pubkey) -> bool {
        self.voters@.contains(k) || self.contributors@.contains(k) || self.owner == k
    }

    /// Fields other than the two member lists and the voter count are the same.
    pub open spec fn same_settings(&self, other: &TeamWallet) -> bool {
        &&& self.owner == other.owner
        &&& self.name@ == other.name@
        &&& self.vote_threshold == other.vote_threshold
        &&& self.proposal_count == other.proposal_count
        &&& self.bump == other.bump
    }

    /// Everything but the proposal count is the same.
    pub open spec fn same_but_proposal_count(&self, other: &TeamWallet) -> bool {
        &&& self.owner == other.owner
        &&& self.name@ == other.name@
        &&& self.voters@ == other.voters@
        &&& self.contributors@ == other.contributors@
        &&& self.voter_count == other.voter_count
        &&& self.vote_threshold == other.vote_threshold
        &&& self.bump == other.bump
    }

    /// Everything but the threshold is the same.
    pub open spec fn same_but_threshold(&self, other: &TeamWallet) -> bool {
        &&& self.owner == other.owner
        &&& self.name@ == other.name@
        &&& self.voters@ == other.voters@
        &&& self.contributors@ == other.contributors@
        &&& self.voter_count == other.voter_count
        &&& self.proposal_count == other.proposal_count
        &&& self.bump == other.bump
    }
}

} // verus!
