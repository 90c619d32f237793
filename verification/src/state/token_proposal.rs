//! A proposal to act on a token mint that the team wallet controls.

use vstd::prelude::*;
use crate::pubkey::Pubkey;

verus! {

/// The token actions that a proposal may carry.
#[derive(Clone, Copy, Debug, PartialEq, Eq, Structural)]
pub enum TokenAction {
    Mint,
    Burn,
    FreezeAccount,
    ThawAccount,
    SetMintAuthority,
    SetFreezeAuthority,
    UpdateMetadata,
    SetTransferFee,
    WithdrawTransferFees,
    EnableConfidentialTransfers,
    DisableConfidentialTransfers,
    UpdateInterestRate,
    SetPermanentDelegate,
    UpdateGroupPointer,
    UpdateMemberPointer,
    Transfer,
}

impl TokenAction {
    /// Whether the action works on a token account, which must then be passed.
    pub fn works_on_token_account(&self) -> (r: bool)
        ensures
            r == (*self == TokenAction::Mint || *self == TokenAction::Burn || *self
                == TokenAction::FreezeAccount || *self == TokenAction::ThawAccount),
    {
        match self {
            TokenAction::Mint | TokenAction::Burn | TokenAction::FreezeAccount | TokenAction::ThawAccount => true,
            _ => false,
        }
    }
}

/// New metadata for a token.
pub struct TokenMetadataParams {
    pub name: String,
    pub symbol: String,
    pub uri: String,
}

/// A new transfer fee for a token.
#[derive(Clone, Copy, Debug)]
pub struct TransferFeeParams {
    pub transfer_fee_basis_points: u16,
    pub maximum_fee: u64,
}

/// A token proposal account.
pub struct TokenProposal {
    pub proposal_id: Pubkey,
    pub team_wallet: Pubkey,
    pub proposer: Pubkey,
    pub mint: Pubkey,
    pub action: TokenAction,
    pub amount: u64,
    pub recipient: Option<Pubkey>,
    pub metadata: Option<TokenMetadataParams>,
    pub transfer_fee_config: Option<TransferFeeParams>,
    pub interest_rate: Option<i16>,
    pub votes_for: u8,
    pub votes_against: u8,
    /// Positions in `snapshot_voters` of those who have voted.
    pub voters_voted: Vec<u8>,
    pub executed: bool,
    pub cancelled: bool,
    pub bump: u8,
    /// The voters followed by the contributors when the proposal was created.
    pub snapshot_voters: Vec<Pubkey>,
    pub created_at: i64,
    pub expires_at: i64,
}

impl TokenProposal {
    /// Largest number of voters in the snapshot.
    pub const MAX_VOTERS: usize = 15;
    /// Largest number of contributors in the snapshot.
    pub const MAX_CONTRIBUTORS: usize = 15;
    /// Largest snapshot of eligible voters: voters and contributors.
    pub const MAX_SNAPSHOT: usize = 30;
    /// Seconds after creation at which a token proposal expires: seven days.
    pub const DEFAULT_EXPIRY: i64 = 604800;
    /// Bytes that a token proposal account takes.
    pub const SPACE: usize = 8 + 32 + 32 + 32 + 32 + 1 + 8 + 33 + 255 + 11 + 3 + 1 + 1 + 4 + 30 + 1 + 1
        + 1 + 4 + 32 * 30 + 8 + 8;

    /// A snapshot within its limit, each recorded position once and inside the snapshot,
    /// one recorded position per vote, and a new authority given when one is needed.
    pub open spec fn wf(&self) -> bool {
        &&& self.snapshot_voters@.len() <= Self::MAX_SNAPSHOT
        &&& crate::state::proposal::votes_recorded_wf(self.voters_voted@, self.snapshot_voters@.len())
        &&& self.votes_for + self.votes_against == self.voters_voted@.len()
        &&& self.action == TokenAction::SetMintAuthority ==> self.recipient is Some
    }

    /// Whether the proposal keeps what every token proposal keeps.
    pub fn is_wf(&self) -> (r: bool)
        ensures
            r == self.wf(),
    {
        self.snapshot_voters.len() <= Self::MAX_SNAPSHOT
            && crate::state::proposal::votes_recorded_ok(&self.voters_voted, self.snapshot_voters.len())
            && self.votes_for as usize + self.votes_against as usize == self.voters_voted.len()
            && (self.action != TokenAction::SetMintAuthority || self.recipient.is_some())
    }

    /// Whether the proposal has expired at `current_time`.
    pub fn is_expired(&self, current_time: i64) -> (r: bool)
        ensures
            r == (current_time > self.expires_at),
    {
        current_time > self.expires_at
    }
}

} // verus!
