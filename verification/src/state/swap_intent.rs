//! An intent to swap tokens: the amounts are voted on, the route is chosen when it runs.

use vstd::prelude::*;
use crate::pubkey::Pubkey;

verus! {

/// A swap intent account.
pub struct SwapIntent {
    pub team_wallet: Pubkey,
    pub proposer: Pubkey,
    pub input_mint: Pubkey,
    pub output_mint: Pubkey,
    pub amount_in: u64,
    pub min_amount_out: u64,
    pub slippage_bps: u16,
    pub votes_for: u8,
    pub votes_against: u8,
    /// Positions in `snapshot_voters` of those who have voted.
    pub voters_voted: Vec<u8>,
    /// The voters followed by the contributors when the intent was created.
    pub snapshot_voters: Vec<Pubkey>,
    pub executed: bool,
    pub cancelled: bool,
    pub created_at: i64,
    pub expires_at: i64,
    pub approved: bool,
    pub approved_at: i64,
    pub execution_window_seconds: i64,
    pub bump: u8,
    pub nonce: Pubkey,
}

impl SwapIntent {
    /// Largest number of voters in the snapshot.
    pub const MAX_VOTERS: usize = 15;
    /// Largest number of contributors in the snapshot.
    pub const MAX_CONTRIBUTORS: usize = 15;
    /// Largest snapshot of eligible voters: voters and contributors.
    pub const MAX_SNAPSHOT: usize = 30;
    /// Seconds after approval during which the swap may run: one hour.
    pub const DEFAULT_EXECUTION_WINDOW: i64 = 3600;
    /// Seconds after creation at which the intent expires: seven days.
    pub const DEFAULT_EXPIRY: i64 = 604800;
    /// Bytes that a swap intent account takes.
    pub const SPACE: usize = 8 + 32 + 32 + 32 + 32 + 8 + 8 + 2 + 1 + 1 + 4 + 30 + 4 + 32 * 30 + 1 + 1 + 8
        + 8 + 1 + 8 + 8 + 1 + 32;

    /// A snapshot within its limit, each recorded position once and inside the snapshot,
    /// one recorded position per vote.
    pub open spec fn wf(&self) -> bool {
        &&& self.snapshot_voters@.len() <= Self::MAX_SNAPSHOT
        &&& crate::state::proposal::votes_recorded_wf(self.voters_voted@, self.snapshot_voters@.len())
        &&& self.votes_for + self.votes_against == self.voters_voted@.len()
    }

    /// Whether the intent keeps what every swap intent keeps.
    pub fn is_wf(&self) -> (r: bool)
        ensures
            r == self.wf(),
    {
        self.snapshot_voters.len() <= Self::MAX_SNAPSHOT
            && crate::state::proposal::votes_recorded_ok(&self.voters_voted, self.snapshot_voters.len())
            && self.votes_for as usize + self.votes_against as usize == self.voters_voted.len()
    }

    /// The end of the execution window, as a mathematical integer.
    pub open spec fn deadline(&self) -> int {
        self.approved_at + self.execution_window_seconds
    }

    /// Whether the approved, open intent may run at `current_time`, within its window.
    pub fn is_executable(&self, current_time: i64) -> (r: bool)
        requires
            self.approved && !self.executed && !self.cancelled ==> i64::MIN <= self.deadline() <= i64::MAX,
        ensures
            r == (self.approved && !self.executed && !self.cancelled && current_time <= self.deadline()),
    {
        if !self.approved || self.executed || self.cancelled {
            return false;
        }
        let deadline = self.approved_at + self.execution_window_seconds;
        current_time <= deadline
    }

    /// Whether the intent has expired at `current_time`.
    pub fn is_expired(&self, current_time: i64) -> (r: bool)
        ensures
            r == (current_time > self.expires_at),
    {
        current_time > self.expires_at
    }

    /// Whether an approved intent's execution window has passed at `current_time`.
    pub fn is_execution_expired(&self, current_time: i64) -> (r: bool)
        requires
            self.approved ==> i64::MIN <= self.deadline() <= i64::MAX,
        ensures
            r == (self.approved && current_time > self.deadline()),
    {
        if !self.approved {
            return false;
        }
        let deadline = self.approved_at + self.execution_window_seconds;
        current_time > deadline
    }
}

} // verus!
