//! Swap proposals: the declared account, and the proposal fields that the swap-proposal
//! instructions read and write.

use vstd::prelude::*;
use crate::pubkey::Pubkey;

verus! {

/// The declared swap proposal account.
pub struct SwapProposal {
    pub team_wallet: Pubkey,
    pub proposal_id: Pubkey,
    pub proposer: Pubkey,
    pub amount_in: u64,
    pub min_amount_out: u64,
    pub input_mint: Pubkey,
    pub output_mint: Pubkey,
    pub votes_for: u8,
    pub votes_against: u8,
    pub voters: Vec<Pubkey>,
    pub executed: bool,
    pub created_at: i64,
    pub bump: u8,
}

impl SwapProposal {
    /// Bytes that a swap proposal account takes.
    pub const LEN: usize = 8 + 32 + 32 + 32 + 8 + 8 + 32 + 32 + 1 + 1 + 4 + 32 * 10 + 1 + 8 + 1;
}

/// The proposal that the swap-proposal instructions create, vote on and execute.
pub struct SwapProposalState {
    pub team_wallet: Pubkey,
    pub proposer: Pubkey,
    pub amount: u64,
    pub input_mint: Option<Pubkey>,
    pub output_mint: Option<Pubkey>,
    pub min_output_amount: Option<u64>,
    pub slippage_bps: Option<u16>,
    pub is_token_transfer: bool,
    pub mint: Option<Pubkey>,
    pub is_swap_proposal: bool,
    pub votes_for: u8,
    pub votes_against: u8,
    /// The voters followed by the contributors when the proposal was created.
    pub snapshot_voters: Vec<Pubkey>,
    /// Positions in `snapshot_voters` of those who have voted.
    pub voters_voted: Vec<u8>,
    pub executed: bool,
    pub ready_to_execute: bool,
    pub bump: u8,
    pub nonce: u64,
}

impl SwapProposalState {
    /// A snapshot within its limit, each recorded position once and inside the snapshot,
    /// one recorded position per vote, and a minimum output on every swap proposal.
    pub open spec fn wf(&self) -> bool {
        &&& self.snapshot_voters@.len() <= 30
        &&& crate::state::proposal::votes_recorded_wf(self.voters_voted@, self.snapshot_voters@.len())
        &&& self.votes_for + self.votes_against == self.voters_voted@.len()
        &&& self.is_swap_proposal ==> self.min_output_amount is Some
    }

    /// Whether the proposal keeps what every swap proposal keeps.
    pub fn is_wf(&self) -> (r: bool)
        ensures
            r == self.wf(),
    {
        self.snapshot_voters.len() <= 30
            && crate::state::proposal::votes_recorded_ok(&self.voters_voted, self.snapshot_voters.len())
            && self.votes_for as usize + self.votes_against as usize == self.voters_voted.len()
            && (!self.is_swap_proposal || self.min_output_amount.is_some())
    }
}

} // verus!
