//! A proposal to upgrade one of the team's programs from a buffer.

use vstd::prelude::*;
use crate::pubkey::{Pubkey, has_duplicates};

verus! {

/// An upgrade proposal account.
pub struct UpgradeProposal {
    pub team_wallet: Pubkey,
    pub proposer: Pubkey,
    pub new_buffer: Pubkey,
    pub spill_account: Pubkey,
    pub votes_for: u8,
    pub votes_against: u8,
    pub voters_voted: Vec<Pubkey>,
    pub executed: bool,
    pub bump: u8,
}

impl UpgradeProposal {
    /// Bytes that an upgrade proposal account takes.
    pub const MAX_SIZE: usize = 8 + 32 + 32 + 32 + 32 + 1 + 1 + (4 + 32 * 15) + 1 + 1;

    /// What every upgrade proposal keeps: nobody is recorded as having voted twice.
    pub open spec fn wf(&self) -> bool {
        self.voters_voted@.no_duplicates()
    }

    /// Whether the proposal keeps what every upgrade proposal keeps.
    pub fn is_wf(&self) -> (r: bool)
        ensures
            r == self.wf(),
    {
        !has_duplicates(&self.voters_voted)
    }
}

} // verus!
