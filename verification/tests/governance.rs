use teamwallet::cpi::{check_swap_output, mint_decimals, token_account_amount, AccountRef, AuthorityKind, OutsideCall, TokenAccountState};
use teamwallet::errors::TeamWalletError;
use teamwallet::instructions::add_contributor::add_contributor;
use teamwallet::instructions::add_voter::add_voter;
use teamwallet::instructions::cancel_swap_intent::{cancel_expired_swap_intent, cancel_swap_intent, close_swap_intent};
use teamwallet::instructions::create_swap_intent::create_swap_intent;
use teamwallet::instructions::delete_program::{check_program_data, close_delete_proposal, create_delete_proposal, execute_delete_proposal, vote_delete_proposal};
use teamwallet::instructions::execute_swap_intent::execute_swap_intent;
use teamwallet::instructions::initialize_team_wallet::initialize_team_wallet;
use teamwallet::instructions::swap_proposal::{create_swap_proposal, execute_swap_proposal, vote_swap_proposal};
use teamwallet::instructions::threshold_proposal::{create_threshold_proposal, execute_threshold_proposal, vote_threshold_proposal};
use teamwallet::instructions::token_manager::{create_token_proposal, execute_token_proposal};
use teamwallet::instructions::transfer_authority::transfer_program_authority;
use teamwallet::instructions::upgrade_program::{close_upgrade_proposal, create_upgrade_proposal, execute_upgrade_proposal, vote_upgrade_proposal};
use teamwallet::instructions::vote_swap_intent::vote_swap_intent;
use teamwallet::instructions::vote_token_proposal::vote_token_proposal;
use teamwallet::pubkey::Pubkey;
use teamwallet::state::swap_intent::SwapIntent;
use teamwallet::state::team_wallet::TeamWallet;
use teamwallet::state::token_proposal::{TokenAction, TokenMetadataParams, TransferFeeParams};

const NOW: i64 = 1_700_000_000;
const WEEK: i64 = 604800;

fn key(n: u8) -> Pubkey {
    Pubkey::new_from_array([n; 32])
}

/// The least percentage whose share of `n` voters, rounded up, is `votes`.
fn percent(votes: u8, n: usize) -> u8 {
    (100 * (votes as usize - 1) / n + 1) as u8
}

/// A wallet of the owner and `voters` whose threshold asks for `votes` votes.
fn wallet(voters: &[u8], votes: u8) -> TeamWallet {
    let threshold = percent(votes, voters.len() + 1);
    initialize_team_wallet(key(1), "team".to_string(), threshold, voters.iter().map(|n| key(*n)).collect(), 7).unwrap()
}

fn program_data_of(program: Pubkey) -> Pubkey {
    let loader = anchor_lang::solana_program::bpf_loader_upgradeable::id();
    let (pda, _) = anchor_lang::prelude::Pubkey::find_program_address(&[&program.bytes], &loader);
    Pubkey::new_from_array(pda.to_bytes())
}

#[test]
fn threshold_proposal_lifecycle() {
    let mut w = wallet(&[2, 3], 2);
    assert_eq!(w.vote_threshold, 34);
    add_contributor(&mut w, key(20)).unwrap();
    assert_eq!(create_threshold_proposal(&w, key(50), 0, key(60), NOW, 1).err(), Some(TeamWalletError::InvalidThreshold));
    assert_eq!(create_threshold_proposal(&w, key(50), 101, key(60), NOW, 1).err(), Some(TeamWalletError::InvalidThreshold));
    let mut p = create_threshold_proposal(&w, key(50), 67, key(60), NOW, 1).unwrap();
    assert_eq!(p.snapshot_voters, vec![key(1), key(2), key(3)]);
    assert_eq!(p.voters_voted, vec![key(1)]);
    assert_eq!((p.votes_for, p.votes_against, p.old_threshold, p.new_threshold), (1, 0, 34, 67));
    // the proposal lives a week from its creation
    assert_eq!((p.created_at, p.expires_at), (NOW, NOW + WEEK));
    assert_eq!(vote_threshold_proposal(&mut p, key(2), true, NOW + WEEK + 1), Err(TeamWalletError::ProposalExpired));
    assert_eq!(vote_threshold_proposal(&mut p, key(20), true, NOW), Err(TeamWalletError::NotAuthorizedToVote));
    assert_eq!(vote_threshold_proposal(&mut p, key(1), true, NOW), Err(TeamWalletError::AlreadyVoted));
    // 34% of three voters asks for two votes
    assert_eq!(execute_threshold_proposal(&mut p, &mut w), Err(TeamWalletError::InsufficientVotes));
    assert_eq!(vote_threshold_proposal(&mut p, key(2), true, NOW + WEEK), Ok(()));
    assert_eq!(vote_threshold_proposal(&mut p, key(2), true, NOW), Err(TeamWalletError::AlreadyVoted));
    assert_eq!(p.votes_for, 2);
    assert_eq!(execute_threshold_proposal(&mut p, &mut w), Ok(()));
    assert_eq!(w.vote_threshold, 67);
    assert!(p.executed);
    assert_eq!(execute_threshold_proposal(&mut p, &mut w), Err(TeamWalletError::ProposalAlreadyExecuted));
}

#[test]
fn threshold_proposal_cancelled_by_votes_against() {
    let mut w = wallet(&[2, 3], 3);
    assert_eq!(w.vote_threshold, 67);
    let mut p = create_threshold_proposal(&w, key(50), 34, key(60), NOW, 1).unwrap();
    assert_eq!(vote_threshold_proposal(&mut p, key(2), false, NOW), Ok(()));
    assert!(p.cancelled);
    assert_eq!(vote_threshold_proposal(&mut p, key(3), true, NOW), Err(TeamWalletError::ProposalAlreadyCancelled));
    // a cancelled proposal is answered as executed
    assert_eq!(execute_threshold_proposal(&mut p, &mut w), Err(TeamWalletError::ProposalAlreadyExecuted));
    assert_eq!(w.vote_threshold, 67);
}

#[test]
fn program_data_address_is_the_loader_address() {
    let program = key(40);
    let expected = program_data_of(program);
    assert_ne!(expected, program);
    assert!(check_program_data(&program, &expected));
    assert!(!check_program_data(&program, &program));
}

#[test]
fn delete_proposal_lifecycle() {
    let mut w = wallet(&[2], 2);
    add_contributor(&mut w, key(20)).unwrap();
    assert_eq!(create_delete_proposal(&w, key(50), key(77), key(40), key(41), NOW, 1).err(), Some(TeamWalletError::NotAVoterOrContributor));
    let mut p = create_delete_proposal(&w, key(50), key(2), key(40), key(41), NOW, 1).unwrap();
    assert_eq!(p.voters_voted, vec![key(2)]);
    assert_eq!(p.expires_at, NOW + WEEK);
    let data = program_data_of(key(40));
    assert_eq!(execute_delete_proposal(&mut p, &w, key(50), key(1), key(40), data, key(41), NOW).err(), Some(TeamWalletError::InsufficientVotes));
    assert_eq!(vote_delete_proposal(&mut p, &w, key(77), true, NOW), Err(TeamWalletError::NotAVoter));
    assert_eq!(vote_delete_proposal(&mut p, &w, key(2), true, NOW), Err(TeamWalletError::AlreadyVoted));
    assert_eq!(vote_delete_proposal(&mut p, &w, key(20), true, NOW + WEEK + 1), Err(TeamWalletError::ProposalExpired));
    assert_eq!(vote_delete_proposal(&mut p, &w, key(20), true, NOW), Ok(()));
    assert_eq!(p.votes_for, 2);
    assert_eq!(execute_delete_proposal(&mut p, &w, key(50), key(77), key(40), data, key(41), NOW).err(), Some(TeamWalletError::NotAVoterOrContributor));
    assert_eq!(execute_delete_proposal(&mut p, &w, key(50), key(20), key(39), data, key(41), NOW).err(), Some(TeamWalletError::InvalidProgramData));
    assert_eq!(execute_delete_proposal(&mut p, &w, key(50), key(20), key(40), data, key(42), NOW).err(), Some(TeamWalletError::InvalidProgramData));
    assert_eq!(execute_delete_proposal(&mut p, &w, key(50), key(20), key(40), key(43), key(41), NOW).err(), Some(TeamWalletError::InvalidProgramData));
    assert!(!p.executed);
    match execute_delete_proposal(&mut p, &w, key(50), key(20), key(40), data, key(41), NOW) {
        Ok(OutsideCall::Invoke { instruction }) => {
            assert_eq!(instruction.data, vec![5, 0, 0, 0]);
            let metas: Vec<(Pubkey, bool, bool)> = instruction.accounts.iter().map(|a| (a.key, a.is_signer, a.is_writable)).collect();
            assert_eq!(metas, vec![(data, false, true), (key(41), false, true), (key(50), true, false), (key(40), false, true)]);
        }
        _ => panic!("expected a close instruction"),
    }
    assert!(p.executed);
    assert_eq!(close_delete_proposal(&p, &w, key(1)), Err(TeamWalletError::ProposalAlreadyExecuted));
    let q = create_delete_proposal(&w, key(50), key(1), key(40), key(41), NOW, 1).unwrap();
    assert_eq!(close_delete_proposal(&q, &w, key(2)), Err(TeamWalletError::NotAVoterOrContributor));
    assert_eq!(close_delete_proposal(&q, &w, key(20)), Ok(()));
}

#[test]
fn upgrade_proposal_lifecycle() {
    let w = wallet(&[2], 2);
    assert_eq!(create_upgrade_proposal(&w, key(50), key(77), key(45), key(41), 1).err(), Some(TeamWalletError::NotAVoterOrContributor));
    let mut p = create_upgrade_proposal(&w, key(50), key(2), key(45), key(41), 1).unwrap();
    assert_eq!(p.spill_account, key(41));
    assert_eq!(p.voters_voted, vec![key(2)]);
    let data = program_data_of(key(40));
    // 51% of two voters asks for both votes
    assert_eq!(w.vote_threshold, 51);
    assert_eq!(execute_upgrade_proposal(&mut p, &w, key(50), key(40), data, key(45), key(41)).err(), Some(TeamWalletError::InsufficientVotes));
    assert_eq!(vote_upgrade_proposal(&mut p, &w, key(77), true), Err(TeamWalletError::NotAVoter));
    assert_eq!(vote_upgrade_proposal(&mut p, &w, key(2), true), Err(TeamWalletError::AlreadyVoted));
    assert_eq!(vote_upgrade_proposal(&mut p, &w, key(1), true), Ok(()));
    assert_eq!((p.votes_for, p.votes_against), (2, 0));
    assert_eq!(p.voters_voted, vec![key(2), key(1)]);
    assert_eq!(vote_upgrade_proposal(&mut p, &w, key(1), false), Err(TeamWalletError::AlreadyVoted));
    assert_eq!(execute_upgrade_proposal(&mut p, &w, key(50), key(40), data, key(46), key(41)).err(), Some(TeamWalletError::InvalidUpgradeBuffer));
    // the spill account must be the proposal's
    assert_eq!(execute_upgrade_proposal(&mut p, &w, key(50), key(40), data, key(45), key(42)).err(), Some(TeamWalletError::InvalidData));
    assert_eq!(close_upgrade_proposal(&p, &w, key(2)), Err(TeamWalletError::NotAVoterOrContributor));
    assert_eq!(close_upgrade_proposal(&p, &w, key(1)), Ok(()));
    assert_eq!(execute_upgrade_proposal(&mut p, &w, key(50), key(40), key(46), key(45), key(41)).err(), Some(TeamWalletError::InvalidProgramData));
    match execute_upgrade_proposal(&mut p, &w, key(50), key(40), data, key(45), key(41)) {
        Ok(OutsideCall::Invoke { instruction }) => {
            // the team wallet signs as the authority; the spill account receives the refund
            let metas: Vec<(Pubkey, bool, bool)> = instruction.accounts.iter().map(|a| (a.key, a.is_signer, a.is_writable)).collect();
            assert_eq!(metas[..4].to_vec(), vec![(data, false, true), (key(40), false, true), (key(45), false, true), (key(41), false, true)]);
            assert_eq!(metas[6], (key(50), true, false));
            assert_eq!(instruction.data, vec![3, 0, 0, 0]);
        }
        _ => panic!("expected an upgrade"),
    }
    assert_eq!(execute_upgrade_proposal(&mut p, &w, key(50), key(40), data, key(45), key(41)).err(), Some(TeamWalletError::ProposalAlreadyExecuted));
    assert_eq!(vote_upgrade_proposal(&mut p, &w, key(2), true), Err(TeamWalletError::ProposalAlreadyExecuted));
    assert_eq!(close_upgrade_proposal(&p, &w, key(1)), Err(TeamWalletError::ProposalAlreadyExecuted));
}

#[test]
fn program_authority_moves_to_the_team_wallet() {
    let ix = transfer_program_authority(key(40), key(3), key(50)).unwrap();
    assert_eq!(ix.program_id.bytes, anchor_lang::solana_program::bpf_loader_upgradeable::id().to_bytes());
    let metas: Vec<(Pubkey, bool, bool)> = ix.accounts.iter().map(|a| (a.key, a.is_signer, a.is_writable)).collect();
    assert_eq!(metas, vec![(program_data_of(key(40)), false, true), (key(3), true, false), (key(50), false, false)]);
    assert_eq!(ix.data, vec![4, 0, 0, 0]);
}

#[test]
fn token_proposal_arguments() {
    let w = wallet(&[2], 1);
    let create = |action: TokenAction, amount: u64, recipient: Option<Pubkey>| {
        create_token_proposal(&w, key(50), key(2), key(40), key(70), action, amount, recipient, None, None, None, NOW, 1)
    };
    assert_eq!(create(TokenAction::Mint, 1, None).err(), Some(TeamWalletError::RecipientRequired));
    assert_eq!(create(TokenAction::FreezeAccount, 1, None).err(), Some(TeamWalletError::RecipientRequired));
    assert_eq!(create(TokenAction::SetMintAuthority, 1, None).err(), Some(TeamWalletError::RecipientRequired));
    assert_eq!(create(TokenAction::SetPermanentDelegate, 1, None).err(), Some(TeamWalletError::RecipientRequired));
    assert!(create(TokenAction::SetFreezeAuthority, 0, None).is_ok());
    assert!(create(TokenAction::Burn, 0, None).is_ok());
    assert_eq!(create(TokenAction::UpdateMetadata, 0, None).err(), Some(TeamWalletError::MetadataRequired));
    assert_eq!(create(TokenAction::SetTransferFee, 0, None).err(), Some(TeamWalletError::TransferFeeConfigRequired));
    assert_eq!(create(TokenAction::UpdateInterestRate, 0, None).err(), Some(TeamWalletError::InterestRateRequired));
    assert_eq!(create(TokenAction::Transfer, 0, Some(key(9))).err(), Some(TeamWalletError::InvalidAmount));
    assert_eq!(create(TokenAction::Transfer, 5, None).err(), Some(TeamWalletError::RecipientRequired));
    let fee = create_token_proposal(&w, key(50), key(2), key(40), key(70), TokenAction::SetTransferFee, 0, None, None,
        Some(TransferFeeParams { transfer_fee_basis_points: 50, maximum_fee: 1_000_000 }), None, NOW, 1).unwrap();
    assert_eq!(fee.transfer_fee_config.unwrap().maximum_fee, 1_000_000);
    let r = create_token_proposal(&w, key(50), key(77), key(40), key(70), TokenAction::Burn, 1, None, None, None, None, NOW, 1);
    assert_eq!(r.err(), Some(TeamWalletError::NotAVoterOrContributor));
}

#[test]
fn token_proposal_voting_and_execution() {
    let mut w = wallet(&[2, 3], 2);
    add_contributor(&mut w, key(20)).unwrap();
    add_voter(&mut w, key(20)).unwrap();
    let mut p = create_token_proposal(&w, key(50), key(20), key(40), key(70), TokenAction::Mint, 9, Some(key(9)), None, None, None, NOW, 1).unwrap();
    // voters then contributors, without removing the repeat
    assert_eq!(p.snapshot_voters, vec![key(1), key(2), key(3), key(20), key(20)]);
    assert_eq!(p.voters_voted, vec![3u8]);
    assert_eq!(p.expires_at, NOW + WEEK);
    assert_eq!(vote_token_proposal(&mut p, key(20), true, NOW), Err(TeamWalletError::AlreadyVoted));
    assert_eq!(vote_token_proposal(&mut p, key(77), true, NOW), Err(TeamWalletError::NotAuthorizedToVote));
    assert_eq!(execute_token_proposal(&mut p, &w, key(50), key(40), key(80), NOW, Some(key(60)), None).err(), Some(TeamWalletError::InsufficientVotes));
    assert_eq!(vote_token_proposal(&mut p, key(3), false, NOW), Ok(()));
    assert_eq!(vote_token_proposal(&mut p, key(2), true, NOW), Ok(()));
    assert_eq!((p.votes_for, p.votes_against), (2, 1));
    assert_eq!(p.voters_voted, vec![3u8, 2u8, 1u8]);
    assert_eq!(execute_token_proposal(&mut p, &w, key(50), key(40), key(80), NOW + WEEK + 1, Some(key(60)), None).err(), Some(TeamWalletError::ProposalExpired));
    match execute_token_proposal(&mut p, &w, key(50), key(40), key(80), NOW, Some(key(60)), None) {
        Ok(OutsideCall::MintTo { program, mint, account, authority, amount }) => {
            assert_eq!((program, mint, account, authority, amount), (key(80), key(40), key(60), key(50), 9));
        }
        _ => panic!("expected a mint"),
    }
    assert_eq!(execute_token_proposal(&mut p, &w, key(50), key(40), key(80), NOW, Some(key(60)), None).err(), Some(TeamWalletError::ProposalAlreadyExecuted));
    assert_eq!(vote_token_proposal(&mut p, key(1), true, NOW), Err(TeamWalletError::ProposalAlreadyExecuted));
}

#[test]
fn token_actions_become_token_program_calls() {
    let w = wallet(&[], 1);
    let run = |action: TokenAction, recipient: Option<Pubkey>, metadata: Option<TokenMetadataParams>, accounts: (bool, bool)| {
        let mut p = create_token_proposal(&w, key(50), key(1), key(40), key(70), action, 5, recipient, metadata, None, None, NOW, 1).unwrap();
        execute_token_proposal(&mut p, &w, key(50), key(40), key(80), NOW, accounts.0.then_some(key(60)), accounts.1.then_some(key(61)))
    };
    assert!(matches!(run(TokenAction::Burn, None, None, (true, false)), Ok(OutsideCall::Burn { amount: 5, .. })));
    assert!(matches!(run(TokenAction::FreezeAccount, Some(key(9)), None, (true, false)), Ok(OutsideCall::FreezeAccount { .. })));
    assert!(matches!(run(TokenAction::ThawAccount, Some(key(9)), None, (true, false)), Ok(OutsideCall::ThawAccount { .. })));
    match run(TokenAction::SetMintAuthority, Some(key(9)), None, (false, false)) {
        Ok(OutsideCall::SetAuthority { kind, new_authority, .. }) => assert_eq!((kind, new_authority), (AuthorityKind::MintTokens, Some(key(9)))),
        _ => panic!("expected an authority change"),
    }
    match run(TokenAction::SetFreezeAuthority, None, None, (false, false)) {
        Ok(OutsideCall::SetAuthority { kind, new_authority, .. }) => assert_eq!((kind, new_authority), (AuthorityKind::FreezeAccount, None)),
        _ => panic!("expected an authority change"),
    }
    let meta = TokenMetadataParams { name: "Coin".to_string(), symbol: "CN".to_string(), uri: "u".to_string() };
    match run(TokenAction::UpdateMetadata, None, Some(meta), (false, false)) {
        Ok(OutsideCall::UpdateMetadata { name, symbol, uri }) => {
            for (ix, tag, value) in [(name, 0u8, "Coin"), (symbol, 1, "CN"), (uri, 2, "u")] {
                assert_eq!(ix.program_id, key(80));
                let metas: Vec<(Pubkey, bool, bool)> = ix.accounts.iter().map(|a| (a.key, a.is_signer, a.is_writable)).collect();
                assert_eq!(metas, vec![(key(40), false, true), (key(50), true, false)]);
                assert_eq!(ix.data[8], tag);
                assert_eq!(ix.data[9..13].to_vec(), (value.len() as u32).to_le_bytes().to_vec());
                assert_eq!(ix.data[13..].to_vec(), value.as_bytes().to_vec());
            }
        }
        _ => panic!("expected a metadata update"),
    }
    assert_eq!(run(TokenAction::Transfer, Some(key(9)), None, (true, false)).err(), Some(TeamWalletError::RecipientRequired));
    assert_eq!(run(TokenAction::Transfer, Some(key(9)), None, (false, true)).err(), Some(TeamWalletError::RecipientRequired));
    match run(TokenAction::Transfer, Some(key(9)), None, (true, true)) {
        Ok(OutsideCall::TransferChecked { program, mint, from, to, authority, amount }) => {
            assert_eq!((program, mint, from, to, authority, amount), (key(80), key(40), key(60), key(61), key(50), 5));
        }
        _ => panic!("expected a transfer"),
    }
    // the extension actions need the Token-2022 program
    assert_eq!(run(TokenAction::WithdrawTransferFees, Some(key(9)), None, (false, false)).err(), Some(TeamWalletError::InvalidData));
    assert_eq!(run(TokenAction::UpdateGroupPointer, None, None, (false, false)).err(), Some(TeamWalletError::InvalidData));
    assert!(matches!(run(TokenAction::EnableConfidentialTransfers, Some(key(9)), None, (false, false)), Ok(OutsideCall::Nothing)));
}

#[test]
fn transfer_fee_and_interest_rate_go_to_token_2022() {
    let w = wallet(&[], 1);
    let token_2022 = Pubkey::new_from_array(anchor_spl::token_2022::ID.to_bytes());
    let fee = TransferFeeParams { transfer_fee_basis_points: 50, maximum_fee: 1_000_000 };
    let mut p = create_token_proposal(&w, key(50), key(1), key(40), key(70), TokenAction::SetTransferFee, 0, None, None, Some(fee), None, NOW, 1).unwrap();
    assert_eq!(execute_token_proposal(&mut p, &w, key(50), key(40), key(80), NOW, None, None).err(), Some(TeamWalletError::InvalidData));
    assert!(!p.executed);
    match execute_token_proposal(&mut p, &w, key(50), key(40), token_2022, NOW, None, None) {
        Ok(OutsideCall::Invoke { instruction }) => {
            assert_eq!(instruction.program_id, token_2022);
            let metas: Vec<(Pubkey, bool, bool)> = instruction.accounts.iter().map(|a| (a.key, a.is_signer, a.is_writable)).collect();
            assert_eq!(metas, vec![(key(40), false, true), (key(50), true, false)]);
            let mut data = vec![26u8, 5];
            data.extend_from_slice(&50u16.to_le_bytes());
            data.extend_from_slice(&1_000_000u64.to_le_bytes());
            assert_eq!(instruction.data, data);
        }
        _ => panic!("expected a transfer fee change"),
    }
    assert!(p.executed);

    let mut p = create_token_proposal(&w, key(50), key(1), key(40), key(70), TokenAction::UpdateInterestRate, 0, None, None, None, Some(-500), NOW, 1).unwrap();
    match execute_token_proposal(&mut p, &w, key(50), key(40), token_2022, NOW, None, None) {
        Ok(OutsideCall::Invoke { instruction }) => {
            let mut data = vec![33u8, 1];
            data.extend_from_slice(&(-500i16).to_le_bytes());
            assert_eq!(instruction.data, data);
            assert_eq!(instruction.accounts[1].key, key(50));
        }
        _ => panic!("expected a rate change"),
    }

    let run = |action: TokenAction, recipient: Option<Pubkey>| {
        let mut p = create_token_proposal(&w, key(50), key(1), key(40), key(70), action, 0, recipient, None, None, None, NOW, 1).unwrap();
        execute_token_proposal(&mut p, &w, key(50), key(40), token_2022, NOW, None, None)
    };
    match run(TokenAction::WithdrawTransferFees, Some(key(9))) {
        Ok(OutsideCall::Invoke { instruction }) => {
            let metas: Vec<(Pubkey, bool, bool)> = instruction.accounts.iter().map(|a| (a.key, a.is_signer, a.is_writable)).collect();
            assert_eq!(metas, vec![(key(40), false, true), (key(9), false, true), (key(50), true, false)]);
            assert_eq!(instruction.data, vec![26, 2]);
        }
        _ => panic!("expected a fee withdrawal"),
    }
    match run(TokenAction::UpdateGroupPointer, Some(key(9))) {
        Ok(OutsideCall::Invoke { instruction }) => {
            let mut data = vec![40u8, 1];
            data.extend_from_slice(&[9u8; 32]);
            assert_eq!(instruction.data, data);
        }
        _ => panic!("expected a group pointer update"),
    }
    match run(TokenAction::UpdateMemberPointer, None) {
        Ok(OutsideCall::Invoke { instruction }) => {
            let mut data = vec![41u8, 1];
            data.extend_from_slice(&[0u8; 32]);
            assert_eq!(instruction.data, data);
        }
        _ => panic!("expected a member pointer update"),
    }
    assert_eq!(run(TokenAction::UpdateMemberPointer, Some(Pubkey::new_from_array([0; 32]))).err(), Some(TeamWalletError::InvalidData));
}

fn intent(w: &TeamWallet, proposer: u8) -> Result<SwapIntent, TeamWalletError> {
    create_swap_intent(w, key(50), key(proposer), key(30), key(31), 100, 90, 50, key(60), NOW, 1)
}

fn tokens(mint: u8, owner: u8, amount: u64) -> TokenAccountState {
    TokenAccountState { mint: key(mint), owner: key(owner), amount }
}

#[test]
fn swap_intent_creation() {
    let w = wallet(&[2], 2);
    assert_eq!(intent(&w, 77).err(), Some(TeamWalletError::NotAVoterOrContributor));
    let c = |a: u64, m: u64, i: u8, o: u8, s: u16| create_swap_intent(&w, key(50), key(2), key(i), key(o), a, m, s, key(60), NOW, 1);
    assert_eq!(c(0, 1, 30, 31, 0).err(), Some(TeamWalletError::InvalidAmount));
    assert_eq!(c(1, 0, 30, 31, 0).err(), Some(TeamWalletError::InvalidMinOutput));
    assert_eq!(c(1, 1, 30, 30, 0).err(), Some(TeamWalletError::SameMintSwap));
    assert_eq!(c(1, 1, 30, 31, 5001).err(), Some(TeamWalletError::SlippageTooHigh));
    let i = intent(&w, 2).unwrap();
    assert_eq!(i.voters_voted, vec![1u8]);
    assert!(!i.approved);
    assert_eq!((i.expires_at, i.execution_window_seconds), (NOW + WEEK, 3600));
    let solo = wallet(&[], 1);
    let i = intent(&solo, 1).unwrap();
    assert!(i.approved);
    assert_eq!(i.approved_at, NOW);
}

#[test]
fn swap_intent_voting_opens_the_window() {
    let mut w = wallet(&[2, 3], 2);
    let mut i = intent(&w, 1).unwrap();
    assert_eq!(vote_swap_intent(&mut i, &w, key(1), true, NOW), Err(TeamWalletError::AlreadyVoted));
    assert_eq!(vote_swap_intent(&mut i, &w, key(2), false, NOW + 1), Ok(()));
    assert!(!i.approved);
    // the wallet's current threshold decides
    w.vote_threshold = 1;
    assert_eq!(vote_swap_intent(&mut i, &w, key(3), false, NOW + 2), Ok(()));
    assert!(i.approved);
    assert_eq!(i.approved_at, NOW + 2);
    assert_eq!((i.votes_for, i.votes_against), (1, 2));
    assert!(i.is_executable(NOW + 3602));
    assert!(!i.is_executable(NOW + 3603));
    assert!(i.is_execution_expired(NOW + 3603));
    assert_eq!(vote_swap_intent(&mut i, &w, key(9), true, NOW), Err(TeamWalletError::NotAuthorizedToVote));
    assert_eq!(vote_swap_intent(&mut i, &w, key(9), true, NOW + WEEK + 1), Err(TeamWalletError::ProposalExpired));
}

#[test]
fn swap_intent_execution_checks() {
    let w = wallet(&[], 1);
    let remaining = vec![
        AccountRef { key: key(80), is_signer: false, is_writable: false },
        AccountRef { key: key(50), is_signer: false, is_writable: false },
        AccountRef { key: key(81), is_signer: true, is_writable: true },
        AccountRef { key: key(82), is_signer: false, is_writable: false },
    ];
    let mut i = intent(&w, 1).unwrap();
    let good_in = tokens(30, 50, 100);
    let good_out = tokens(31, 50, 0);
    assert_eq!(execute_swap_intent(&mut i, key(50), good_in, good_out, &remaining, vec![7], NOW + 3601).err(), Some(TeamWalletError::SwapExecutionWindowExpired));
    assert_eq!(execute_swap_intent(&mut i, key(50), tokens(31, 50, 100), good_out, &remaining, vec![7], NOW).err(), Some(TeamWalletError::InvalidMint));
    assert_eq!(execute_swap_intent(&mut i, key(50), good_in, tokens(30, 50, 0), &remaining, vec![7], NOW).err(), Some(TeamWalletError::InvalidMint));
    assert_eq!(execute_swap_intent(&mut i, key(50), tokens(30, 51, 100), good_out, &remaining, vec![7], NOW).err(), Some(TeamWalletError::InvalidTokenAccountOwner));
    assert_eq!(execute_swap_intent(&mut i, key(50), tokens(30, 50, 99), good_out, &remaining, vec![7], NOW).err(), Some(TeamWalletError::InsufficientBalance));
    assert_eq!(execute_swap_intent(&mut i, key(50), good_in, good_out, &remaining[..1].to_vec(), vec![7], NOW).err(), Some(TeamWalletError::InvalidRemainingAccounts));
    assert!(!i.executed);
    match execute_swap_intent(&mut i, key(50), good_in, good_out, &remaining, vec![7], NOW) {
        Ok(OutsideCall::Swap { instruction, min_amount_out }) => {
            assert_eq!(min_amount_out, 90);
            assert_eq!(instruction.program_id, key(80));
            assert_eq!(instruction.data, vec![7]);
            let metas: Vec<(Pubkey, bool, bool)> = instruction.accounts.iter().map(|a| (a.key, a.is_signer, a.is_writable)).collect();
            assert_eq!(metas, vec![(key(50), true, true), (key(81), false, true), (key(82), false, false)]);
        }
        _ => panic!("expected a swap"),
    }
    assert!(i.executed);
    assert_eq!(execute_swap_intent(&mut i, key(50), good_in, good_out, &remaining, vec![7], NOW).err(), Some(TeamWalletError::ProposalAlreadyExecuted));

    let w2 = wallet(&[2], 2);
    let mut j = intent(&w2, 1).unwrap();
    assert_eq!(execute_swap_intent(&mut j, key(50), good_in, good_out, &remaining, vec![7], NOW).err(), Some(TeamWalletError::InsufficientVotes));
}

#[test]
fn swap_intent_cancel_and_close() {
    let mut w = wallet(&[2], 2);
    add_contributor(&mut w, key(20)).unwrap();
    let i = intent(&w, 20).unwrap();
    assert_eq!(cancel_swap_intent(&i, &w, key(2)), Err(TeamWalletError::NotAuthorizedToCancel));
    assert_eq!(cancel_swap_intent(&i, &w, key(20)), Ok(()));
    assert_eq!(cancel_swap_intent(&i, &w, key(1)), Ok(()));
    assert_eq!(cancel_expired_swap_intent(&i, NOW), Err(TeamWalletError::ProposalNotExpired));
    assert_eq!(cancel_expired_swap_intent(&i, NOW + WEEK + 1), Ok(()));
    assert_eq!(close_swap_intent(&i, &w, key(1)), Err(TeamWalletError::ProposalNotExecuted));
    let mut done = intent(&wallet(&[], 1), 1).unwrap();
    done.executed = true;
    assert_eq!(cancel_swap_intent(&done, &w, key(1)), Err(TeamWalletError::ProposalAlreadyExecuted));
    assert_eq!(cancel_expired_swap_intent(&done, NOW + 3601), Err(TeamWalletError::ProposalAlreadyExecuted));
    assert_eq!(close_swap_intent(&done, &w, key(2)), Err(TeamWalletError::NotAuthorizedToCancel));
    assert_eq!(close_swap_intent(&done, &w, key(1)), Ok(()));
    let mut c = intent(&wallet(&[], 1), 1).unwrap();
    c.cancelled = true;
    assert_eq!(cancel_swap_intent(&c, &w, key(1)), Err(TeamWalletError::ProposalAlreadyCancelled));
}

#[test]
fn swap_proposal_lifecycle() {
    let mut w = wallet(&[2, 3], 2);
    w.proposal_count = 4;
    let c = |a: u64, m: u64, i: u8, o: u8, s: u16| create_swap_proposal(&w, key(50), key(2), a, key(i), key(o), m, s, 1);
    assert_eq!(c(0, 1, 30, 31, 0).err(), Some(TeamWalletError::InvalidAmount));
    assert_eq!(c(1, 0, 30, 31, 0).err(), Some(TeamWalletError::InvalidMinOutput));
    assert_eq!(c(1, 1, 30, 30, 0).err(), Some(TeamWalletError::SameMintSwap));
    assert_eq!(c(1, 1, 30, 31, 5001).err(), Some(TeamWalletError::SlippageTooHigh));
    assert_eq!(create_swap_proposal(&w, key(50), key(77), 1, key(30), key(31), 1, 0, 1).err(), Some(TeamWalletError::NotAVoterOrContributor));
    let mut p = c(10, 9, 30, 31, 5000).unwrap();
    assert_eq!(p.nonce, 4);
    assert_eq!(p.voters_voted, vec![1u8]);
    assert_eq!(p.min_output_amount, Some(9));
    assert_eq!(execute_swap_proposal(&mut p, 100), Err(TeamWalletError::InsufficientVotes));
    // 34% of three voters asks for two votes
    assert_eq!(vote_swap_proposal(&mut p, &w, key(2), true), Err(TeamWalletError::AlreadyVoted));
    assert_eq!(vote_swap_proposal(&mut p, &w, key(77), true), Err(TeamWalletError::NotAuthorizedToVote));
    assert_eq!(vote_swap_proposal(&mut p, &w, key(3), false), Ok(()));
    assert!(!p.ready_to_execute);
    assert_eq!(vote_swap_proposal(&mut p, &w, key(1), true), Ok(()));
    assert!(p.ready_to_execute);
    assert_eq!(execute_swap_proposal(&mut p, 8), Err(TeamWalletError::SlippageExceeded));
    assert_eq!(execute_swap_proposal(&mut p, 9), Ok(()));
    assert!(p.executed);
    assert_eq!(execute_swap_proposal(&mut p, 9), Err(TeamWalletError::ProposalAlreadyExecuted));
    assert_eq!(vote_swap_proposal(&mut p, &w, key(3), true), Err(TeamWalletError::ProposalAlreadyExecuted));
    p.is_swap_proposal = false;
    assert_eq!(execute_swap_proposal(&mut p, 9), Err(TeamWalletError::InvalidProposalType));
}

#[test]
fn account_data_is_read_little_endian() {
    let mut data = vec![0u8; 165];
    data[64..72].copy_from_slice(&0x0102_0304_0506_0708u64.to_le_bytes());
    data[44] = 9;
    assert_eq!(token_account_amount(&data), 0x0102_0304_0506_0708);
    assert_eq!(mint_decimals(&data), 9);
}

#[test]
fn swap_output_must_reach_the_minimum() {
    assert_eq!(check_swap_output(100, 190, 90), Ok(90));
    assert_eq!(check_swap_output(100, 189, 90), Err(TeamWalletError::SlippageExceeded));
    assert_eq!(check_swap_output(100, 50, 0), Ok(0));
    assert_eq!(check_swap_output(100, 50, 1), Err(TeamWalletError::SlippageExceeded));
}
