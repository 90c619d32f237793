//! A proposal to change the vote threshold, voted on by the voters.

use vstd::prelude::*;
use crate::pubkey::{Pubkey, contains_key, has_duplicates};

verus! {

/// A threshold proposal account.
pub struct ThresholdProposal {
    pub team_wallet: Pubkey,
    pub proposer: Pubkey,
    pub new_threshold: u8,
    /// The threshold, a percentage, when the proposal was made; its votes must reach that
    /// share of the snapshot.
    pub old_threshold: u8,
    pub executed: bool,
    pub cancelled: bool,
    pub bump: u8,
    pub nonce: Pubkey,
    pub snapshot_voters: Vec<Pubkey>,
    pub voters_voted: Vec<Pubkey>,
    pub votes_for: u8,
    pub votes_against: u8,
    pub created_at: i64,
    pub expires_at: i64,
}

impl ThresholdProposal {
    /// Largest snapshot of voters.
    pub const MAX_VOTERS: usize = 15;
    /// Seconds after creation at which a threshold proposal expires: seven days.
    pub const DEFAULT_EXPIRY: i64 = 604800;
    /// Bytes that a threshold proposal account takes.
    pub const SPACE: usize = 8 + 32 + 32 + 1 + 1 + 1 + 1 + 1 + 32 + 4 + 32 * 15 + 4 + 32 * 15 + 1 + 1 + 8
        + 8;

    /// A snapshot without repeats within its limit, each recorded voter once and in the
    /// snapshot, one recorded voter per vote.
    pub open spec fn wf(&self) -> bool {
        &&& self.snapshot_voters@.len() <= Self::MAX_VOTERS
        &&& self.snapshot_voters@.no_duplicates()
        &&& self.voters_voted@.no_duplicates()
        &&& forall|i: int|
            0 <= i < self.voters_voted@.len() ==> self.snapshot_voters@.contains(
                #[trigger] self.voters_voted@[i],
            )
        &&& self.votes_for + self.votes_against == self.voters_voted@.len()
    }

    /// Whether the proposal keeps what every threshold proposal keeps.
    pub fn is_wf(&self) -> (r: bool)
        ensures
            r == self.wf(),
    {
        if !(self.snapshot_voters.len() <= Self::MAX_VOTERS && !has_duplicates(&self.snapshot_voters)
            && !has_duplicates(&self.voters_voted)
            && self.votes_for as usize + self.votes_against as usize == self.voters_voted.len()) {
            return false;
        }
        let mut i: usize = 0;
        while i < self.voters_voted.len()
            invariant
                i <= self.voters_voted@.len(),
                forall|j: int| 0 <= j < i ==> self.snapshot_voters@.contains(#[trigger] self.voters_voted@[j]),
            decreases self.voters_voted.len() - i,
        {
            if !contains_key(&self.snapshot_voters, &self.voters_voted[i]) {
                return false;
            }
            i = i + 1;
        }
        true
    }

    /// Whether the proposal has expired at `current_time`.
    pub fn is_expired(&self, current_time: i64) -> (r: bool)
        ensures
            r == (current_time > self.expires_at),
    {
        current_time > self.expires_at
    }
}

} // verus!
