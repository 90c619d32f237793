//! Governing a token mint by vote: create and execute token proposals.

use vstd::prelude::*;
use crate::cpi::{AuthorityKind, OutsideCall};
use crate::errors::TeamWalletError;
use crate::instructions::delete_program::{is_member, member_error};
use crate::instructions::execute_proposal::{is_metadata_call, metadata_fits, metadata_updates};
use crate::solana::{
    group_pointer_update_instruction, is_pointer_update, is_set_transfer_fee, is_update_rate,
    is_withdraw_withheld_from_mint, is_zero_key, member_pointer_update_instruction, set_transfer_fee_instruction,
    token_2022_bytes, update_rate_instruction, withdraw_withheld_instruction,
};
use crate::pubkey::{Pubkey, concat_keys, first_index_of, position};
use crate::state::team_wallet::TeamWallet;
use crate::state::token_proposal::{
    TokenAction, TokenMetadataParams, TokenProposal, TransferFeeParams,
};

verus! {

broadcast use vstd::seq_lib::group_seq_properties;

/// Why a token action's arguments are refused: most actions need a target account, the
/// metadata, fee and interest actions need their parameters, a transfer a positive amount.
pub open spec fn token_action_error(
    action: TokenAction,
    amount: u64,
    has_recipient: bool,
    has_metadata: bool,
    has_fee: bool,
    has_rate: bool,
) -> Option<TeamWalletError> {
    match action {
        TokenAction::Mint | TokenAction::FreezeAccount | TokenAction::ThawAccount
        | TokenAction::SetMintAuthority | TokenAction::WithdrawTransferFees
        | TokenAction::EnableConfidentialTransfers | TokenAction::DisableConfidentialTransfers
        | TokenAction::SetPermanentDelegate => if !has_recipient {
            Some(TeamWalletError::RecipientRequired)
        } else {
            None
        },
        TokenAction::UpdateMetadata => if !has_metadata {
            Some(TeamWalletError::MetadataRequired)
        } else {
            None
        },
        TokenAction::SetTransferFee => if !has_fee {
            Some(TeamWalletError::TransferFeeConfigRequired)
        } else {
            None
        },
        TokenAction::UpdateInterestRate => if !has_rate {
            Some(TeamWalletError::InterestRateRequired)
        } else {
            None
        },
        TokenAction::Transfer => if !has_recipient {
            Some(TeamWalletError::RecipientRequired)
        } else if amount == 0 {
            Some(TeamWalletError::InvalidAmount)
        } else {
            None
        },
        _ => None,
    }
}

/// Checks a token action's arguments.
pub fn validate_token_action(
    action: TokenAction,
    amount: u64,
    has_recipient: bool,
    has_metadata: bool,
    has_fee: bool,
    has_rate: bool,
) -> (r: Result<(), TeamWalletError>)
    ensures
        match r {
            Ok(()) => token_action_error(action, amount, has_recipient, has_metadata, has_fee, has_rate) is None,
            Err(e) => token_action_error(action, amount, has_recipient, has_metadata, has_fee, has_rate) == Some(e),
        },
{
    match action {
        TokenAction::Mint | TokenAction::FreezeAccount | TokenAction::ThawAccount
        | TokenAction::SetMintAuthority | TokenAction::WithdrawTransferFees
        | TokenAction::EnableConfidentialTransfers | TokenAction::DisableConfidentialTransfers
        | TokenAction::SetPermanentDelegate => {
            if !has_recipient {
                return Err(TeamWalletError::RecipientRequired);
            }
        },
        TokenAction::UpdateMetadata => {
            if !has_metadata {
                return Err(TeamWalletError::MetadataRequired);
            }
        },
        TokenAction::SetTransferFee => {
            if !has_fee {
                return Err(TeamWalletError::TransferFeeConfigRequired);
            }
        },
        TokenAction::UpdateInterestRate => {
            if !has_rate {
                return Err(TeamWalletError::InterestRateRequired);
            }
        },
        TokenAction::Transfer => {
            if !has_recipient {
                return Err(TeamWalletError::RecipientRequired);
            }
            if amount == 0 {
                return Err(TeamWalletError::InvalidAmount);
            }
        },
        _ => {},
    }
    Ok(())
}

/// Why creating a token proposal is refused: only members may propose, then the action's
/// arguments are checked.
pub open spec fn create_token_error(
    w: TeamWallet,
    proposer: Pubkey,
    action: TokenAction,
    amount: u64,
    recipient: Option<Pubkey>,
    metadata: Option<TokenMetadataParams>,
    transfer_fee_config: Option<TransferFeeParams>,
    interest_rate: Option<i16>,
) -> Option<TeamWalletError> {
    if member_error(w, proposer) is Some {
        member_error(w, proposer)
    } else {
        token_action_error(action, amount, recipient is Some, metadata is Some, transfer_fee_config is Some, interest_rate is Some)
    }
}

/// Proposes `action` on `mint`. The snapshot is the voters followed by the contributors,
/// the proposer's vote counts for it at once, and it expires seven days after `now`.
pub fn create_token_proposal(
    team_wallet: &TeamWallet,
    team_wallet_key: Pubkey,
    proposer: Pubkey,
    mint: Pubkey,
    proposal_id: Pubkey,
    action: TokenAction,
    amount: u64,
    recipient: Option<Pubkey>,
    metadata: Option<TokenMetadataParams>,
    transfer_fee_config: Option<TransferFeeParams>,
    interest_rate: Option<i16>,
    now: i64,
    bump: u8,
) -> (r: Result<TokenProposal, TeamWalletError>)
    requires
        team_wallet.wf(),
        now + TokenProposal::DEFAULT_EXPIRY <= i64::MAX,
    ensures
        match r {
            Err(e) => create_token_error(*team_wallet, proposer, action, amount, recipient, metadata, transfer_fee_config, interest_rate) == Some(e),
            Ok(p) => {
                let snapshot = team_wallet.voters@ + team_wallet.contributors@;
                &&& create_token_error(*team_wallet, proposer, action, amount, recipient, metadata, transfer_fee_config, interest_rate) is None
                &&& p == (TokenProposal {
                    proposal_id,
                    team_wallet: team_wallet_key,
                    proposer,
                    mint,
                    action,
                    amount,
                    recipient,
                    metadata,
                    transfer_fee_config,
                    interest_rate,
                    votes_for: 1,
                    votes_against: 0,
                    voters_voted: p.voters_voted,
                    executed: false,
                    cancelled: false,
                    bump,
                    snapshot_voters: p.snapshot_voters,
                    created_at: now,
                    expires_at: (now + TokenProposal::DEFAULT_EXPIRY) as i64,
                })
                &&& p.snapshot_voters@ == snapshot
                &&& p.voters_voted@ == seq![first_index_of(snapshot, proposer) as u8]
                &&& p.wf()
            },
        },
{
    if !is_member(team_wallet, &proposer) {
        return Err(TeamWalletError::NotAVoterOrContributor);
    }
    validate_token_action(
        action,
        amount,
        recipient.is_some(),
        metadata.is_some(),
        transfer_fee_config.is_some(),
        interest_rate.is_some(),
    )?;
    let created_at = now;
    let expires_at = created_at + TokenProposal::DEFAULT_EXPIRY;
    let snapshot = concat_keys(&team_wallet.voters, &team_wallet.contributors);
    proof {
        if team_wallet.voters@.contains(proposer) {
            let j = choose|j: int| 0 <= j < team_wallet.voters@.len() && team_wallet.voters@[j] == proposer;
            assert(snapshot@[j] == proposer);
        } else if team_wallet.contributors@.contains(proposer) {
            let j = choose|j: int| 0 <= j < team_wallet.contributors@.len() && team_wallet.contributors@[j] == proposer;
            assert(snapshot@[team_wallet.voters@.len() + j] == proposer);
        } else {
            assert(snapshot@[0] == proposer);
        }
        assert(snapshot@.contains(proposer));
    }
    let proposer_index: u8 = match position(&snapshot, &proposer) {
        Some(i) => i as u8,
        None => 0,
    };
    let mut voters_voted: Vec<u8> = Vec::new();
    voters_voted.push(proposer_index);
    Ok(
        TokenProposal {
            proposal_id,
            team_wallet: team_wallet_key,
            proposer,
            mint,
            action,
            amount,
            recipient,
            metadata,
            transfer_fee_config,
            interest_rate,
            votes_for: 1,
            votes_against: 0,
            voters_voted,
            executed: false,
            cancelled: false,
            bump,
            snapshot_voters: snapshot,
            created_at,
            expires_at,
        },
    )
}

/// Why executing a token proposal is refused before its action is looked at: it must be
/// open, unexpired, and its votes for must reach those the wallet's current threshold asks for.
pub open spec fn execute_token_check_error(p: TokenProposal, w: TeamWallet, now: i64) -> Option<TeamWalletError> {
    if p.executed {
        Some(TeamWalletError::ProposalAlreadyExecuted)
    } else if p.cancelled {
        Some(TeamWalletError::ProposalAlreadyCancelled)
    } else if now > p.expires_at {
        Some(TeamWalletError::ProposalExpired)
    } else if p.votes_for < w.votes_required() {
        Some(TeamWalletError::InsufficientVotes)
    } else {
        None
    }
}

/// Why executing a token proposal at `now` is refused before its action is looked at.
pub fn execute_token_check(proposal: &TokenProposal, team_wallet: &TeamWallet, now: i64) -> (r: Option<TeamWalletError>)
    ensures
        r == execute_token_check_error(*proposal, *team_wallet, now),
        r is None ==> proposal.votes_for >= team_wallet.votes_required() && !proposal.executed
            && !proposal.cancelled && now <= proposal.expires_at,
{
    if proposal.executed {
        Some(TeamWalletError::ProposalAlreadyExecuted)
    } else if proposal.cancelled {
        Some(TeamWalletError::ProposalAlreadyCancelled)
    } else if proposal.is_expired(now) {
        Some(TeamWalletError::ProposalExpired)
    } else if (proposal.votes_for as u16) < team_wallet.votes_needed() {
        Some(TeamWalletError::InsufficientVotes)
    } else {
        None
    }
}

/// Whether the action works on a token account, which must then be passed.
pub open spec fn needs_token_account(action: TokenAction) -> bool {
    action == TokenAction::Mint || action == TokenAction::Burn || action == TokenAction::FreezeAccount
        || action == TokenAction::ThawAccount
}

/// Why carrying out the token action is refused: metadata must be present, and encodable, to update it,
/// a transfer needs both token accounts, setting the transfer fee or the interest rate needs
/// its value and the Token-2022 program, withdrawing the withheld fees a recipient and that
/// program, and moving a group or member pointer that program and a nonzero address.
pub open spec fn token_execution_error(p: TokenProposal, token_program: Pubkey, has_token_account: bool, has_destination: bool) -> Option<TeamWalletError> {
    match p.action {
        TokenAction::UpdateMetadata => if p.metadata is None {
            Some(TeamWalletError::MetadataRequired)
        } else if !metadata_fits(p.metadata.unwrap().name@, p.metadata.unwrap().symbol@, p.metadata.unwrap().uri@) {
            Some(TeamWalletError::InvalidData)
        } else {
            None
        },
        TokenAction::Transfer => if !has_token_account || !has_destination {
            Some(TeamWalletError::RecipientRequired)
        } else {
            None
        },
        TokenAction::SetTransferFee => if p.transfer_fee_config is None {
            Some(TeamWalletError::TransferFeeConfigRequired)
        } else if token_program.bytes@ != token_2022_bytes() {
            Some(TeamWalletError::InvalidData)
        } else {
            None
        },
        TokenAction::WithdrawTransferFees => if p.recipient is None {
            Some(TeamWalletError::RecipientRequired)
        } else if token_program.bytes@ != token_2022_bytes() {
            Some(TeamWalletError::InvalidData)
        } else {
            None
        },
        TokenAction::UpdateGroupPointer | TokenAction::UpdateMemberPointer => if token_program.bytes@
            != token_2022_bytes() || (p.recipient matches Some(k) && is_zero_key(k)) {
            Some(TeamWalletError::InvalidData)
        } else {
            None
        },
        TokenAction::UpdateInterestRate => if p.interest_rate is None {
            Some(TeamWalletError::InterestRateRequired)
        } else if token_program.bytes@ != token_2022_bytes() {
            Some(TeamWalletError::InvalidData)
        } else {
            None
        },
        _ => None,
    }
}

/// The call that carries out the token action on the mint `mint` through `token_program`,
/// under the team wallet, on the passed token account and destination; actions with no
/// call here do nothing.
pub open spec fn token_call(
    p: TokenProposal,
    team_wallet_key: Pubkey,
    mint: Pubkey,
    token_program: Pubkey,
    token_account: Option<Pubkey>,
    destination: Option<Pubkey>,
    call: OutsideCall,
) -> bool {
    let program = token_program;
    let authority = team_wallet_key;
    match p.action {
        TokenAction::Mint => call == (OutsideCall::MintTo { program, mint, account: token_account.unwrap(), authority, amount: p.amount }),
        TokenAction::Burn => call == (OutsideCall::Burn { program, mint, account: token_account.unwrap(), authority, amount: p.amount }),
        TokenAction::FreezeAccount => call == (OutsideCall::FreezeAccount { program, mint, account: token_account.unwrap(), authority }),
        TokenAction::ThawAccount => call == (OutsideCall::ThawAccount { program, mint, account: token_account.unwrap(), authority }),
        TokenAction::SetMintAuthority => call == (OutsideCall::SetAuthority {
            program,
            mint,
            authority,
            kind: AuthorityKind::MintTokens,
            new_authority: p.recipient,
        }),
        TokenAction::SetFreezeAuthority => call == (OutsideCall::SetAuthority {
            program,
            mint,
            authority,
            kind: AuthorityKind::FreezeAccount,
            new_authority: p.recipient,
        }),
        TokenAction::UpdateMetadata => is_metadata_call(
            call,
            token_program,
            mint,
            team_wallet_key,
            p.metadata.unwrap().name@,
            p.metadata.unwrap().symbol@,
            p.metadata.unwrap().uri@,
        ),
        TokenAction::Transfer => call == (OutsideCall::TransferChecked {
            program,
            mint,
            from: token_account.unwrap(),
            to: destination.unwrap(),
            authority,
            amount: p.amount,
        }),
        TokenAction::SetTransferFee => {
            let f = p.transfer_fee_config.unwrap();
            &&& call matches OutsideCall::Invoke { instruction }
            &&& is_set_transfer_fee(instruction, token_program, mint, team_wallet_key, f.transfer_fee_basis_points, f.maximum_fee)
        },
        TokenAction::WithdrawTransferFees => {
            &&& call matches OutsideCall::Invoke { instruction }
            &&& is_withdraw_withheld_from_mint(instruction, token_program, mint, p.recipient.unwrap(), team_wallet_key)
        },
        TokenAction::UpdateGroupPointer => {
            &&& call matches OutsideCall::Invoke { instruction }
            &&& is_pointer_update(instruction, token_program, mint, team_wallet_key, 40u8, p.recipient)
        },
        TokenAction::UpdateMemberPointer => {
            &&& call matches OutsideCall::Invoke { instruction }
            &&& is_pointer_update(instruction, token_program, mint, team_wallet_key, 41u8, p.recipient)
        },
        TokenAction::UpdateInterestRate => {
            &&& call matches OutsideCall::Invoke { instruction }
            &&& is_update_rate(instruction, token_program, mint, team_wallet_key, p.interest_rate.unwrap())
        },
        _ => call == OutsideCall::Nothing,
    }
}

/// Executes a token proposal at `now`: returns the call to the token program that carries
/// out the action, signed by the team wallet, and marks the proposal executed.
/// `mint` and `token_program` are the accounts passed as the mint and the token program,
/// `token_account` and `destination` the optional token accounts, when passed.
pub fn execute_token_proposal(
    proposal: &mut TokenProposal,
    team_wallet: &TeamWallet,
    team_wallet_key: Pubkey,
    mint: Pubkey,
    token_program: Pubkey,
    now: i64,
    token_account: Option<Pubkey>,
    destination: Option<Pubkey>,
) -> (r: Result<OutsideCall, TeamWalletError>)
    requires
        old(proposal).wf(),
        execute_token_check_error(*old(proposal), *team_wallet, now) is None && needs_token_account(
            old(proposal).action,
        ) ==> token_account is Some,
    ensures
        ({
            let p = *old(proposal);
            let error = if execute_token_check_error(p, *team_wallet, now) is Some {
                execute_token_check_error(p, *team_wallet, now)
            } else {
                token_execution_error(p, token_program, token_account is Some, destination is Some)
            };
            match r {
                Err(e) => error == Some(e) && *final(proposal) == p,
                Ok(call) => error is None && token_call(p, team_wallet_key, mint, token_program, token_account, destination, call) && *final(proposal) == (
                TokenProposal { executed: true, ..p }),
            }
        }),
        r is Ok ==> old(proposal).votes_for >= team_wallet.votes_required(),
{
    if let Some(e) = execute_token_check(proposal, team_wallet, now) {
        return Err(e);
    }
    let call = match proposal.action {
        TokenAction::Mint | TokenAction::Burn | TokenAction::FreezeAccount | TokenAction::ThawAccount => {
            let account = match token_account {
                Some(a) => a,
                None => {
                    return Err(TeamWalletError::RecipientRequired);
                },
            };
            match proposal.action {
                TokenAction::Mint => OutsideCall::MintTo {
                    program: token_program,
                    mint,
                    account,
                    authority: team_wallet_key,
                    amount: proposal.amount,
                },
                TokenAction::Burn => OutsideCall::Burn {
                    program: token_program,
                    mint,
                    account,
                    authority: team_wallet_key,
                    amount: proposal.amount,
                },
                TokenAction::FreezeAccount => OutsideCall::FreezeAccount { program: token_program, mint, account, authority: team_wallet_key },
                _ => OutsideCall::ThawAccount { program: token_program, mint, account, authority: team_wallet_key },
            }
        },
        TokenAction::SetMintAuthority => {
            let new_authority = match proposal.recipient {
                Some(k) => k,
                None => {
                    return Err(TeamWalletError::RecipientRequired);
                },
            };
            OutsideCall::SetAuthority {
                program: token_program,
                mint,
                authority: team_wallet_key,
                kind: AuthorityKind::MintTokens,
                new_authority: Some(new_authority),
            }
        },
        TokenAction::SetFreezeAuthority => OutsideCall::SetAuthority {
            program: token_program,
            mint,
            authority: team_wallet_key,
            kind: AuthorityKind::FreezeAccount,
            new_authority: proposal.recipient,
        },
        TokenAction::UpdateMetadata => {
            match &proposal.metadata {
                Some(meta) => match metadata_updates(
                    token_program,
                    mint,
                    team_wallet_key,
                    meta.name.clone(),
                    meta.symbol.clone(),
                    meta.uri.clone(),
                ) {
                    Some(call) => call,
                    None => {
                        return Err(TeamWalletError::InvalidData);
                    },
                },
                None => {
                    return Err(TeamWalletError::MetadataRequired);
                },
            }
        },
        TokenAction::Transfer => {
            let from = match token_account {
                Some(a) => a,
                None => {
                    return Err(TeamWalletError::RecipientRequired);
                },
            };
            let to = match destination {
                Some(a) => a,
                None => {
                    return Err(TeamWalletError::RecipientRequired);
                },
            };
            OutsideCall::TransferChecked {
                program: token_program,
                mint,
                from,
                to,
                authority: team_wallet_key,
                amount: proposal.amount,
            }
        },
        TokenAction::SetTransferFee => {
            let fee = match &proposal.transfer_fee_config {
                Some(f) => f,
                None => {
                    return Err(TeamWalletError::TransferFeeConfigRequired);
                },
            };
            match set_transfer_fee_instruction(&token_program, &mint, &team_wallet_key, fee.transfer_fee_basis_points, fee.maximum_fee) {
                Some(instruction) => OutsideCall::Invoke { instruction },
                None => {
                    return Err(TeamWalletError::InvalidData);
                },
            }
        },
        TokenAction::WithdrawTransferFees => {
            let destination = match proposal.recipient {
                Some(k) => k,
                None => {
                    return Err(TeamWalletError::RecipientRequired);
                },
            };
            match withdraw_withheld_instruction(&token_program, &mint, &destination, &team_wallet_key) {
                Some(instruction) => OutsideCall::Invoke { instruction },
                None => {
                    return Err(TeamWalletError::InvalidData);
                },
            }
        },
        TokenAction::UpdateGroupPointer => match group_pointer_update_instruction(&token_program, &mint, &team_wallet_key, proposal.recipient) {
            Some(instruction) => OutsideCall::Invoke { instruction },
            None => {
                return Err(TeamWalletError::InvalidData);
            },
        },
        TokenAction::UpdateMemberPointer => match member_pointer_update_instruction(&token_program, &mint, &team_wallet_key, proposal.recipient) {
            Some(instruction) => OutsideCall::Invoke { instruction },
            None => {
                return Err(TeamWalletError::InvalidData);
            },
        },
        TokenAction::UpdateInterestRate => {
            let rate = match proposal.interest_rate {
                Some(r) => r,
                None => {
                    return Err(TeamWalletError::InterestRateRequired);
                },
            };
            match update_rate_instruction(&token_program, &mint, &team_wallet_key, rate) {
                Some(instruction) => OutsideCall::Invoke { instruction },
                None => {
                    return Err(TeamWalletError::InvalidData);
                },
            }
        },
        _ => OutsideCall::Nothing,
    };
    proposal.executed = true;
    Ok(call)
}

} // verus!
