//! A proposal to close one of the team's programs.

use vstd::prelude::*;
use crate::pubkey::{Pubkey, has_duplicates};

verus! {

/// One more, stopping at the largest byte.
pub open spec fn saturating_inc(x: u8) -> u8 {
    if x == u8::MAX {
        x
    } else {
        (x + 1) as u8
    }
}

/// A delete proposal account.
pub struct DeleteProposal {
    pub team_wallet: Pubkey,
    pub proposer: Pubkey,
    pub program_id: Pubkey,
    pub spill_account: Pubkey,
    pub votes_for: u8,
    pub votes_against: u8,
    pub voters_voted: Vec<Pubkey>,
    pub executed: bool,
    pub cancelled: bool,
    pub bump: u8,
    pub created_at: i64,
    pub expires_at: i64,
}

impl DeleteProposal {
    /// Largest number of recorded voters.
    pub const MAX_VOTERS: usize = 15;
    /// Seconds after creation at which a delete proposal expires: seven days.
    pub const DEFAULT_EXPIRY: i64 = 604800;
    /// Bytes that a delete proposal account takes.
    pub const MAX_SIZE: usize = 8 + 32 + 32 + 32 + 32 + 1 + 1 + 4 + 32 * 15 + 1 + 1 + 1 + 8 + 8;

    /// Each recorded voter occurs once.
    pub open spec fn wf(&self) -> bool {
        self.voters_voted@.no_duplicates()
    }

    /// Whether each recorded voter occurs once.
    pub fn is_wf(&self) -> (r: bool)
        ensures
            r == self.wf(),
    {
        !has_duplicates(&self.voters_voted)
    }

    /// Whether the proposal has expired at `current_time`.
    pub fn is_expired(&self, current_time: i64) -> (r: bool)
        ensures
            r == (current_time > self.expires_at),
    {
        current_time > self.expires_at
    }
}

} // verus!
