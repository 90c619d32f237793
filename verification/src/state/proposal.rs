//! The unified proposal: an action that the team votes on and then carries out.

use vstd::prelude::*;
use crate::pubkey::{Pubkey, distinct_below, has_duplicates};

verus! {

/// Everything that a proposal may ask the wallet to do.
pub enum ProposalAction {
    TransferSol { amount: u64, recipient: Pubkey },
    TransferToken { amount: u64, recipient: Pubkey, mint: Pubkey },
    Swap {
        input_mint: Pubkey,
        output_mint: Pubkey,
        amount_in: u64,
        min_amount_out: u64,
        slippage_bps: u16,
    },
    ChangeThreshold { new_threshold: u8 },
    AddVoter { voter: Pubkey },
    RemoveVoter { voter: Pubkey },
    AddContributor { contributor: Pubkey },
    RemoveContributor { contributor: Pubkey },
    UpgradeProgram { program_id: Pubkey, buffer: Pubkey, spill: Pubkey },
    DeleteProgram { program_id: Pubkey, spill: Pubkey },
    TokenMint { mint: Pubkey, amount: u64, recipient: Pubkey },
    TokenBurn { mint: Pubkey, amount: u64 },
    TokenFreeze { mint: Pubkey, account: Pubkey },
    TokenThaw { mint: Pubkey, account: Pubkey },
    TokenSetMintAuthority { mint: Pubkey, new_authority: Option<Pubkey> },
    TokenSetFreezeAuthority { mint: Pubkey, new_authority: Option<Pubkey> },
    TokenUpdateMetadata { mint: Pubkey, name: String, symbol: String, uri: String },
}

impl ProposalAction {
    /// Bytes that the largest action takes once serialized.
    pub const MAX_SIZE: usize = 1 + 32 + 32 + 32 + 8 + 8 + 2 + 4 + 32 + 4 + 10 + 4 + 200;

    /// Whether the action must run within a window after approval: swaps only.
    pub fn requires_execution_window(&self) -> (r: bool)
        ensures
            r == (*self is Swap),
    {
        match self {
            ProposalAction::Swap { .. } => true,
            _ => false,
        }
    }
}

/// A proposal account.
pub struct Proposal {
    pub team_wallet: Pubkey,
    pub proposer: Pubkey,
    pub action: ProposalAction,
    pub votes_for: u8,
    pub votes_against: u8,
    /// Positions in `snapshot_voters` of those who have voted.
    pub voters_voted: Vec<u8>,
    /// Who may vote, as it stood when the proposal was created.
    pub snapshot_voters: Vec<Pubkey>,
    /// The votes that the threshold asked for when the proposal was created.
    pub snapshot_threshold: u8,
    pub executed: bool,
    pub cancelled: bool,
    pub created_at: i64,
    pub expires_at: i64,
    /// Whether the votes for have reached the snapshot threshold.
    pub approved: bool,
    pub approved_at: i64,
    /// Seconds after approval during which a swap may run.
    pub execution_window: i64,
    pub bump: u8,
    pub nonce: Pubkey,
}

/// The positions recorded in `voted` are distinct positions of a snapshot of length `n`.
pub open spec fn votes_recorded_wf(voted: Seq<u8>, n: nat) -> bool {
    &&& voted.no_duplicates()
    &&& forall|i: int| 0 <= i < voted.len() ==> (#[trigger] voted[i]) < n
}

/// Whether the recorded positions are distinct positions of a snapshot of length `n`.
pub fn votes_recorded_ok(voted: &Vec<u8>, n: usize) -> (r: bool)
    ensures
        r == votes_recorded_wf(voted@, n as nat),
{
    distinct_below(voted, n)
}

impl Proposal {
    /// Largest number of voters kept in a proposal's snapshot.
    pub const MAX_VOTERS: usize = 15;
    /// Largest number of contributors kept in a proposal's snapshot.
    pub const MAX_CONTRIBUTORS: usize = 15;
    /// Largest snapshot of eligible voters.
    pub const MAX_SNAPSHOT: usize = 30;
    /// Seconds after creation at which a proposal expires: seven days.
    pub const DEFAULT_EXPIRY: i64 = 604800;
    /// Seconds after approval during which a swap may be executed: one hour.
    pub const DEFAULT_EXECUTION_WINDOW: i64 = 3600;
    /// Bytes that a proposal account takes.
    pub const SPACE: usize = 8 + 32 + 32 + ProposalAction::MAX_SIZE + 1 + 1 + 4 + 30 + 4 + 32 * 30 + 1
        + 1 + 1 + 8 + 8 + 1 + 8 + 8 + 1 + 32;

    /// What every proposal keeps: a snapshot without repeats and within its limit,
    /// each recorded voter once and in the snapshot, and one recorded voter per vote.
    pub open spec fn wf(&self) -> bool {
        &&& self.snapshot_voters@.len() <= Self::MAX_SNAPSHOT
        &&& self.snapshot_voters@.no_duplicates()
        &&& votes_recorded_wf(self.voters_voted@, self.snapshot_voters@.len())
        &&& self.votes_for + self.votes_against == self.voters_voted@.len()
    }

    /// Whether the proposal keeps what every proposal keeps.
    pub fn is_wf(&self) -> (r: bool)
        ensures
            r == self.wf(),
    {
        self.snapshot_voters.len() <= Self::MAX_SNAPSHOT && !has_duplicates(&self.snapshot_voters)
            && votes_recorded_ok(&self.voters_voted, self.snapshot_voters.len())
            && self.votes_for as usize + self.votes_against as usize == self.voters_voted.len()
    }

    /// Everything but the votes and the approval and cancellation they cause is the same.
    pub open spec fn same_but_votes(&self, other: &Proposal) -> bool {
        &&& self.team_wallet == other.team_wallet
        &&& self.proposer == other.proposer
        &&& self.action == other.action
        &&& self.snapshot_voters@ == other.snapshot_voters@
        &&& self.snapshot_threshold == other.snapshot_threshold
        &&& self.executed == other.executed
        &&& self.created_at == other.created_at
        &&& self.expires_at == other.expires_at
        &&& self.execution_window == other.execution_window
        &&& self.bump == other.bump
        &&& self.nonce == other.nonce
    }

    /// Everything but the executed flag is the same.
    pub open spec fn same_but_executed(&self, other: &Proposal) -> bool {
        &&& self.team_wallet == other.team_wallet
        &&& self.proposer == other.proposer
        &&& self.action == other.action
        &&& self.snapshot_voters@ == other.snapshot_voters@
        &&& self.snapshot_threshold == other.snapshot_threshold
        &&& self.created_at == other.created_at
        &&& self.expires_at == other.expires_at
        &&& self.execution_window == other.execution_window
        &&& self.bump == other.bump
        &&& self.nonce == other.nonce
        &&& self.votes_for == other.votes_for
        &&& self.votes_against == other.votes_against
        &&& self.voters_voted@ == other.voters_voted@
        &&& self.cancelled == other.cancelled
        &&& self.approved == other.approved
        &&& self.approved_at == other.approved_at
    }

    /// The deadline of the execution window, as a mathematical integer.
    pub open spec fn window_deadline(&self) -> int {
        self.approved_at + self.execution_window
    }

    /// Whether the proposal has expired at `current_time`.
    pub fn is_expired(&self, current_time: i64) -> (r: bool)
        ensures
            r == (current_time > self.expires_at),
    {
        current_time > self.expires_at
    }

    /// Whether an approved proposal's execution window has passed at `current_time`.
    pub fn is_execution_window_expired(&self, current_time: i64) -> (r: bool)
        requires
            self.approved ==> i64::MIN <= self.window_deadline() <= i64::MAX,
        ensures
            r == (self.approved && current_time > self.window_deadline()),
    {
        if !self.approved {
            return false;
        }
        current_time > self.approved_at + self.execution_window
    }

    /// Whether the proposal could be executed at `current_time`, judged by the snapshot threshold.
    pub open spec fn spec_can_execute(&self, current_time: i64) -> bool {
        &&& !self.executed
        &&& !self.cancelled
        &&& current_time <= self.expires_at
        &&& self.votes_for >= self.snapshot_threshold
        &&& (self.action is Swap ==> self.approved && current_time <= self.window_deadline())
    }

    /// Whether the proposal could be executed at `current_time`; the threshold argument is not used.
    pub fn can_execute(&self, current_time: i64, _threshold: u8) -> (r: bool)
        requires
            self.approved ==> i64::MIN <= self.window_deadline() <= i64::MAX,
        ensures
            r == self.spec_can_execute(current_time),
    {
        if self.executed || self.cancelled {
            return false;
        }
        if self.is_expired(current_time) {
            return false;
        }
        if self.votes_for < self.snapshot_threshold {
            return false;
        }
        if self.action.requires_execution_window() {
            if !self.approved {
                return false;
            }
            if self.is_execution_window_expired(current_time) {
                return false;
            }
        }
        true
    }
}

} // verus!
