//! The errors that the wallet's instructions answer with.

use vstd::prelude::*;

verus! {

/// Why an instruction was refused.
#[derive(Clone, Copy, Debug, PartialEq, Eq, Structural)]
pub enum TeamWalletError {
    // team wallet
    MaxVotersReached,
    MaxContributorsReached,
    VoterAlreadyExists,
    VoterNotFound,
    ContributorAlreadyExists,
    ContributorNotFound,
    CannotRemoveOwner,
    DuplicateVoter,
    OwnerInMembersList,
    AlreadyAVoter,
    InvalidThreshold,
    // proposal
    NotAVoterOrContributor,
    NotAuthorizedToVote,
    AlreadyVoted,
    ProposalAlreadyExecuted,
    ProposalAlreadyCancelled,
    ProposalExpired,
    ProposalNotExpired,
    InsufficientVotes,
    NotAuthorizedToCancel,
    InvalidProposalType,
    // swap
    SameMintSwap,
    SlippageTooHigh,
    SwapExecutionWindowExpired,
    SlippageExceeded,
    SwapNotApproved,
    // token
    InvalidMint,
    InvalidTokenAccountOwner,
    InsufficientBalance,
    InvalidAmount,
    RecipientRequired,
    MetadataRequired,
    AuthorityMissing,
    // program upgrade / delete
    InvalidUpgradeBuffer,
    InvalidProgramData,
    // general
    InvalidRemainingAccounts,
    InvalidData,
    Overflow,
    // raised by instructions beyond the list above
    NotAuthorizedToCreate,
    InvalidMinOutput,
    ProposalNotExecuted,
    InvalidProposalData,
    NotAVoter,
    TransferFeeConfigRequired,
    InterestRateRequired,
}

} // verus!
