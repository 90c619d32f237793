use teamwallet::cpi::{AccountRef, AuthorityKind, InstructionPlan, OutsideCall};
use teamwallet::errors::TeamWalletError;
use teamwallet::instructions::add_contributor::add_contributor;
use teamwallet::instructions::add_voter::add_voter;
use teamwallet::instructions::cancel_proposal::{cancel_expired_proposal, cancel_proposal, close_proposal};
use teamwallet::instructions::create_proposal::{create_proposal, validate_action};
use teamwallet::instructions::entry_points::{create_proposal_sol, create_proposal_token, execute_proposal_sol, execute_proposal_token};
use teamwallet::instructions::execute_proposal::execute_proposal;
use teamwallet::instructions::initialize_team_wallet::initialize_team_wallet;
use teamwallet::instructions::vote_proposal::vote_proposal;
use teamwallet::pubkey::Pubkey;
use teamwallet::state::proposal::{Proposal, ProposalAction};

const DEFAULT_EXPIRY: i64 = Proposal::DEFAULT_EXPIRY;
use teamwallet::state::team_wallet::TeamWallet;

const NOW: i64 = 1_700_000_000;

fn key(n: u8) -> Pubkey {
    Pubkey::new_from_array([n; 32])
}

/// A wallet of the owner and `voters` whose threshold asks for `votes` votes: the least
/// percentage whose share of the voters, rounded up, is `votes`.
fn wallet(voters: &[u8], votes: u8) -> TeamWallet {
    let threshold = (100 * (votes as usize - 1) / (voters.len() + 1) + 1) as u8;
    initialize_team_wallet(key(1), "team".to_string(), threshold, voters.iter().map(|n| key(*n)).collect(), 7).unwrap()
}

fn address(text: &str) -> Pubkey {
    Pubkey::new_from_array(text.parse::<anchor_lang::prelude::Pubkey>().unwrap().to_bytes())
}

fn metas(ix: &InstructionPlan) -> Vec<(Pubkey, bool, bool)> {
    ix.accounts.iter().map(|a| (a.key, a.is_signer, a.is_writable)).collect()
}

/// The program, accounts and field tag of a metadata update, and the value it sets, read
/// back from its data: an 8-byte discriminator, the field's tag, the length and the bytes.
fn field_update(ix: &InstructionPlan) -> (Pubkey, Vec<(Pubkey, bool, bool)>, u8, String) {
    let d = &ix.data;
    let len = u32::from_le_bytes([d[9], d[10], d[11], d[12]]) as usize;
    assert_eq!(d.len(), 13 + len);
    (ix.program_id, metas(ix), d[8], String::from_utf8(d[13..].to_vec()).unwrap())
}

fn acct(n: u8) -> AccountRef {
    AccountRef { key: key(n), is_signer: false, is_writable: true }
}

fn sol(amount: u64, to: u8) -> ProposalAction {
    ProposalAction::TransferSol { amount, recipient: key(to) }
}

fn propose(w: &mut TeamWallet, proposer: u8, action: ProposalAction) -> Proposal {
    create_proposal(w, key(50), key(proposer), action, key(60), NOW, 3).unwrap()
}

#[test]
fn owner_proposal_is_voted_for_and_timed() {
    let mut w = wallet(&[2, 3], 2);
    let p = propose(&mut w, 1, sol(10, 9));
    assert_eq!(p.team_wallet, key(50));
    assert_eq!(p.proposer, key(1));
    assert_eq!(p.votes_for, 1);
    assert_eq!(p.votes_against, 0);
    assert_eq!(p.voters_voted, vec![0u8]);
    assert_eq!(p.snapshot_voters, vec![key(1), key(2), key(3)]);
    assert_eq!(p.snapshot_threshold, 2);
    assert!(!p.approved);
    assert_eq!(p.approved_at, 0);
    assert_eq!(p.created_at, NOW);
    assert_eq!(p.expires_at, NOW + 7 * 24 * 60 * 60);
    assert_eq!(DEFAULT_EXPIRY, 604800);
    assert_eq!(p.execution_window, 0);
    assert_eq!(p.nonce, key(60));
    assert_eq!(p.bump, 3);
    assert_eq!(w.proposal_count, 1);
}

#[test]
fn single_signer_proposal_is_approved_at_once() {
    let mut w = wallet(&[], 1);
    let p = propose(&mut w, 1, sol(10, 9));
    assert!(p.approved);
    assert_eq!(p.approved_at, NOW);
}

#[test]
fn snapshot_lists_contributors_once() {
    let mut w = wallet(&[2], 2);
    add_contributor(&mut w, key(20)).unwrap();
    add_contributor(&mut w, key(21)).unwrap();
    // a contributor who later also became a voter
    add_voter(&mut w, key(21)).unwrap();
    let p = propose(&mut w, 20, sol(1, 9));
    assert_eq!(p.snapshot_voters, vec![key(1), key(2), key(21), key(20)]);
    assert_eq!(p.voters_voted, vec![3u8]);
}

#[test]
fn only_members_may_create() {
    let mut w = wallet(&[2], 1);
    let r = create_proposal(&mut w, key(50), key(77), sol(1, 9), key(60), NOW, 3);
    assert_eq!(r.err(), Some(TeamWalletError::NotAuthorizedToCreate));
    assert_eq!(w.proposal_count, 0);
    // a voter who is neither owner nor contributor may propose
    let p = create_proposal(&mut w, key(50), key(2), sol(1, 9), key(60), NOW, 3).unwrap();
    assert_eq!(p.proposer, key(2));
    assert_eq!(p.voters_voted, vec![1u8]);
    assert_eq!(w.proposal_count, 1);
}

#[test]
fn action_arguments_are_checked() {
    assert_eq!(validate_action(&sol(0, 9)), Err(TeamWalletError::InvalidAmount));
    assert_eq!(validate_action(&ProposalAction::TransferToken { amount: 0, recipient: key(9), mint: key(8) }), Err(TeamWalletError::InvalidAmount));
    let swap = |a: u64, m: u64, i: u8, o: u8, s: u16| ProposalAction::Swap { input_mint: key(i), output_mint: key(o), amount_in: a, min_amount_out: m, slippage_bps: s };
    assert_eq!(validate_action(&swap(0, 1, 1, 2, 0)), Err(TeamWalletError::InvalidAmount));
    assert_eq!(validate_action(&swap(1, 0, 1, 2, 0)), Err(TeamWalletError::InvalidAmount));
    assert_eq!(validate_action(&swap(1, 1, 3, 3, 0)), Err(TeamWalletError::SameMintSwap));
    assert_eq!(validate_action(&swap(1, 1, 1, 2, 5001)), Err(TeamWalletError::SlippageTooHigh));
    assert_eq!(validate_action(&swap(1, 1, 1, 2, 5000)), Ok(()));
    assert_eq!(validate_action(&ProposalAction::ChangeThreshold { new_threshold: 0 }), Err(TeamWalletError::InvalidThreshold));
    assert_eq!(validate_action(&ProposalAction::TokenMint { mint: key(8), amount: 0, recipient: key(9) }), Err(TeamWalletError::InvalidAmount));
    assert_eq!(validate_action(&ProposalAction::TokenBurn { mint: key(8), amount: 0 }), Err(TeamWalletError::InvalidAmount));
    assert_eq!(validate_action(&ProposalAction::AddVoter { voter: key(9) }), Ok(()));
}

#[test]
fn swap_proposal_gets_an_execution_window() {
    let mut w = wallet(&[], 1);
    let p = propose(&mut w, 1, ProposalAction::Swap { input_mint: key(3), output_mint: key(4), amount_in: 5, min_amount_out: 4, slippage_bps: 100 });
    assert_eq!(p.execution_window, Proposal::DEFAULT_EXECUTION_WINDOW);
    assert_eq!(p.execution_window, 3600);
}

#[test]
fn votes_approve_when_threshold_reached() {
    let mut w = wallet(&[2, 3], 2);
    let mut p = propose(&mut w, 1, sol(10, 9));
    assert_eq!(vote_proposal(&mut p, key(2), true, NOW + 5), Ok(()));
    assert_eq!(p.votes_for, 2);
    assert_eq!(p.voters_voted, vec![0u8, 1u8]);
    assert!(p.approved);
    assert_eq!(p.approved_at, NOW + 5);
    assert!(!p.cancelled);
    // a later vote does not move the approval time
    assert_eq!(vote_proposal(&mut p, key(3), false, NOW + 9), Ok(()));
    assert_eq!(p.approved_at, NOW + 5);
    assert_eq!(p.votes_against, 1);
}

#[test]
fn each_voter_votes_once() {
    let mut w = wallet(&[2, 3], 3);
    let mut p = propose(&mut w, 1, sol(10, 9));
    assert_eq!(vote_proposal(&mut p, key(1), true, NOW), Err(TeamWalletError::AlreadyVoted));
    vote_proposal(&mut p, key(2), true, NOW).unwrap();
    assert_eq!(vote_proposal(&mut p, key(2), false, NOW), Err(TeamWalletError::AlreadyVoted));
    assert_eq!(p.votes_for, 2);
    assert_eq!(p.votes_against, 0);
}

#[test]
fn vote_refusals() {
    let mut w = wallet(&[2], 2);
    let mut p = propose(&mut w, 1, sol(10, 9));
    assert_eq!(vote_proposal(&mut p, key(77), true, NOW), Err(TeamWalletError::NotAuthorizedToVote));
    assert_eq!(vote_proposal(&mut p, key(2), true, NOW + DEFAULT_EXPIRY + 1), Err(TeamWalletError::ProposalExpired));
    assert_eq!(vote_proposal(&mut p, key(2), true, NOW + DEFAULT_EXPIRY), Ok(()));
}

#[test]
fn vote_against_cancels_when_threshold_unreachable() {
    let mut w = wallet(&[2, 3], 3);
    let mut p = propose(&mut w, 1, sol(10, 9));
    assert_eq!(vote_proposal(&mut p, key(2), false, NOW), Ok(()));
    assert!(p.cancelled);
    assert_eq!(vote_proposal(&mut p, key(3), true, NOW), Err(TeamWalletError::ProposalAlreadyCancelled));
}

#[test]
fn transfer_sol_execution() {
    let mut w = wallet(&[2], 2);
    let mut p = propose(&mut w, 1, sol(10, 9));
    let remaining = vec![acct(9)];
    assert_eq!(execute_proposal(&mut p, &mut w, key(50), 100, &remaining, None, NOW).err(), Some(TeamWalletError::InsufficientVotes));
    vote_proposal(&mut p, key(2), true, NOW).unwrap();
    assert_eq!(execute_proposal(&mut p, &mut w, key(50), 100, &vec![], None, NOW).err(), Some(TeamWalletError::InvalidRemainingAccounts));
    assert_eq!(execute_proposal(&mut p, &mut w, key(50), 100, &vec![acct(8)], None, NOW).err(), Some(TeamWalletError::InvalidData));
    assert_eq!(execute_proposal(&mut p, &mut w, key(50), 9, &remaining, None, NOW).err(), Some(TeamWalletError::InsufficientBalance));
    assert!(!p.executed);
    match execute_proposal(&mut p, &mut w, key(50), 10, &remaining, None, NOW) {
        Ok(OutsideCall::MoveLamports { amount }) => assert_eq!(amount, 10),
        _ => panic!("expected a lamport transfer"),
    }
    assert!(p.executed);
    assert_eq!(execute_proposal(&mut p, &mut w, key(50), 10, &remaining, None, NOW).err(), Some(TeamWalletError::ProposalAlreadyExecuted));
    assert_eq!(vote_proposal(&mut p, key(2), true, NOW), Err(TeamWalletError::ProposalAlreadyExecuted));
}

#[test]
fn execution_uses_the_current_threshold_and_expiry() {
    let mut w = wallet(&[], 1);
    let mut p = propose(&mut w, 1, sol(10, 9));
    assert_eq!(execute_proposal(&mut p, &mut w, key(50), 10, &vec![acct(9)], None, NOW + DEFAULT_EXPIRY + 1).err(), Some(TeamWalletError::ProposalExpired));
    add_voter(&mut w, key(2)).unwrap();
    w.vote_threshold = 100;
    assert_eq!(execute_proposal(&mut p, &mut w, key(50), 10, &vec![acct(9)], None, NOW).err(), Some(TeamWalletError::InsufficientVotes));
}

#[test]
fn governance_actions_change_the_wallet() {
    let mut w = wallet(&[2, 3], 1);
    let mut p = propose(&mut w, 1, ProposalAction::ChangeThreshold { new_threshold: 3 });
    assert!(matches!(execute_proposal(&mut p, &mut w, key(50), 0, &vec![], None, NOW), Ok(OutsideCall::Nothing)));
    assert_eq!(w.vote_threshold, 3);

    let mut w = wallet(&[2, 3], 1);
    let mut p = propose(&mut w, 1, ProposalAction::ChangeThreshold { new_threshold: 101 });
    assert_eq!(execute_proposal(&mut p, &mut w, key(50), 0, &vec![], None, NOW).err(), Some(TeamWalletError::InvalidThreshold));
    assert_eq!(w.vote_threshold, 1);
    assert!(!p.executed);

    let mut p = propose(&mut w, 1, ProposalAction::AddVoter { voter: key(4) });
    execute_proposal(&mut p, &mut w, key(50), 0, &vec![], None, NOW).unwrap();
    assert_eq!(w.voters, vec![key(1), key(2), key(3), key(4)]);
    assert_eq!(w.voter_count, 4);

    let mut p = propose(&mut w, 1, ProposalAction::RemoveVoter { voter: key(2) });
    w.vote_threshold = 100;
    // all four voters are asked for but only one voted: refused
    assert_eq!(execute_proposal(&mut p, &mut w, key(50), 0, &vec![], None, NOW).err(), Some(TeamWalletError::InsufficientVotes));
    w.vote_threshold = 1;
    execute_proposal(&mut p, &mut w, key(50), 0, &vec![], None, NOW).unwrap();
    assert_eq!(w.voters, vec![key(1), key(3), key(4)]);
    assert_eq!(w.voter_count, 3);

    let mut p = propose(&mut w, 1, ProposalAction::RemoveVoter { voter: key(1) });
    assert_eq!(execute_proposal(&mut p, &mut w, key(50), 0, &vec![], None, NOW).err(), Some(TeamWalletError::CannotRemoveOwner));
    let mut p = propose(&mut w, 1, ProposalAction::RemoveVoter { voter: key(9) });
    assert_eq!(execute_proposal(&mut p, &mut w, key(50), 0, &vec![], None, NOW).err(), Some(TeamWalletError::VoterNotFound));

    let mut p = propose(&mut w, 1, ProposalAction::AddContributor { contributor: key(3) });
    execute_proposal(&mut p, &mut w, key(50), 0, &vec![], None, NOW).unwrap();
    assert_eq!(w.contributors, vec![key(3)]);
    let mut p = propose(&mut w, 1, ProposalAction::AddContributor { contributor: key(3) });
    assert_eq!(execute_proposal(&mut p, &mut w, key(50), 0, &vec![], None, NOW).err(), Some(TeamWalletError::ContributorAlreadyExists));
    let mut p = propose(&mut w, 1, ProposalAction::RemoveContributor { contributor: key(3) });
    execute_proposal(&mut p, &mut w, key(50), 0, &vec![], None, NOW).unwrap();
    assert!(w.contributors.is_empty());
    let mut p = propose(&mut w, 1, ProposalAction::RemoveContributor { contributor: key(3) });
    assert_eq!(execute_proposal(&mut p, &mut w, key(50), 0, &vec![], None, NOW).err(), Some(TeamWalletError::ContributorNotFound));
}

#[test]
fn removing_a_voter_by_proposal_keeps_the_threshold() {
    let mut w = wallet(&[2, 3], 1);
    let mut p = propose(&mut w, 1, ProposalAction::RemoveVoter { voter: key(3) });
    w.vote_threshold = 100;
    p.votes_for = 3;
    execute_proposal(&mut p, &mut w, key(50), 0, &vec![], None, NOW).unwrap();
    assert_eq!(w.voter_count, 2);
    // a percentage stays valid whatever the count
    assert_eq!(w.vote_threshold, 100);
    assert_eq!(w.votes_needed(), 2);
}

#[test]
fn adding_contributors_by_proposal_stops_at_fifteen() {
    let mut w = wallet(&[], 1);
    for n in 20..35 {
        let mut p = propose(&mut w, 1, ProposalAction::AddContributor { contributor: key(n) });
        execute_proposal(&mut p, &mut w, key(50), 0, &vec![], None, NOW).unwrap();
    }
    assert_eq!(w.contributors.len(), 15);
    let mut p = propose(&mut w, 1, ProposalAction::AddContributor { contributor: key(99) });
    assert_eq!(execute_proposal(&mut p, &mut w, key(50), 0, &vec![], None, NOW).err(), Some(TeamWalletError::MaxContributorsReached));
}

#[test]
fn swap_execution_window_and_accounts() {
    let mut w = wallet(&[], 1);
    let action = ProposalAction::Swap { input_mint: key(3), output_mint: key(4), amount_in: 5, min_amount_out: 4, slippage_bps: 100 };
    let mut p = propose(&mut w, 1, action);
    let remaining = vec![
        acct(30),
        acct(31),
        AccountRef { key: key(50), is_signer: false, is_writable: true },
        AccountRef { key: key(32), is_signer: false, is_writable: false },
        AccountRef { key: key(33), is_signer: true, is_writable: false },
    ];
    assert_eq!(execute_proposal(&mut p, &mut w, key(50), 0, &remaining, None, NOW).err(), Some(TeamWalletError::InvalidData));
    assert_eq!(execute_proposal(&mut p, &mut w, key(50), 0, &remaining, Some(vec![1, 2]), NOW + 3601).err(), Some(TeamWalletError::SwapExecutionWindowExpired));
    assert_eq!(execute_proposal(&mut p, &mut w, key(50), 0, &remaining[..2].to_vec(), Some(vec![1, 2]), NOW).err(), Some(TeamWalletError::InvalidRemainingAccounts));
    match execute_proposal(&mut p, &mut w, key(50), 0, &remaining, Some(vec![1, 2]), NOW + 3600) {
        Ok(OutsideCall::Swap { instruction, min_amount_out }) => {
            assert_eq!(min_amount_out, 4);
            assert_eq!(instruction.program_id, key(30));
            assert_eq!(instruction.data, vec![1, 2]);
            let metas: Vec<(Pubkey, bool, bool)> = instruction.accounts.iter().map(|a| (a.key, a.is_signer, a.is_writable)).collect();
            assert_eq!(metas, vec![(key(50), true, true), (key(32), false, false), (key(33), true, false)]);
        }
        _ => panic!("expected a swap"),
    }
}

#[test]
fn unapproved_swap_is_refused() {
    let mut w = wallet(&[2], 2);
    let action = ProposalAction::Swap { input_mint: key(3), output_mint: key(4), amount_in: 5, min_amount_out: 4, slippage_bps: 100 };
    let mut p = propose(&mut w, 1, action);
    p.votes_for = 2;
    assert_eq!(execute_proposal(&mut p, &mut w, key(50), 0, &vec![], Some(vec![]), NOW).err(), Some(TeamWalletError::SwapNotApproved));
}

#[test]
fn program_and_token_actions_check_accounts() {
    let mut w = wallet(&[], 1);
    let seven: Vec<AccountRef> = vec![acct(40), acct(41), acct(42), acct(43), acct(44), acct(45), acct(46)];

    let mut p = propose(&mut w, 1, ProposalAction::UpgradeProgram { program_id: key(40), buffer: key(42), spill: key(43) });
    assert_eq!(execute_proposal(&mut p, &mut w, key(50), 0, &seven[..6].to_vec(), None, NOW).err(), Some(TeamWalletError::InvalidRemainingAccounts));
    match execute_proposal(&mut p, &mut w, key(50), 0, &seven, None, NOW) {
        Ok(OutsideCall::Invoke { instruction }) => {
            let loader = anchor_lang::solana_program::bpf_loader_upgradeable::id();
            let (data, _) = anchor_lang::prelude::Pubkey::find_program_address(&[&key(40).bytes], &loader);
            assert_eq!(instruction.program_id.bytes, loader.to_bytes());
            assert_eq!(instruction.data, vec![3, 0, 0, 0]);
            assert_eq!(metas(&instruction), vec![
                (Pubkey::new_from_array(data.to_bytes()), false, true),
                (key(40), false, true),
                (key(42), false, true),
                (key(43), false, true),
                (address("SysvarRent111111111111111111111111111111111"), false, false),
                (address("SysvarC1ock11111111111111111111111111111111"), false, false),
                (key(50), true, false),
            ]);
        }
        _ => panic!("expected an upgrade"),
    }
    let mut p = propose(&mut w, 1, ProposalAction::UpgradeProgram { program_id: key(40), buffer: key(9), spill: key(43) });
    assert_eq!(execute_proposal(&mut p, &mut w, key(50), 0, &seven, None, NOW).err(), Some(TeamWalletError::InvalidUpgradeBuffer));
    let mut p = propose(&mut w, 1, ProposalAction::UpgradeProgram { program_id: key(9), buffer: key(42), spill: key(43) });
    assert_eq!(execute_proposal(&mut p, &mut w, key(50), 0, &seven, None, NOW).err(), Some(TeamWalletError::InvalidProgramData));

    let mut p = propose(&mut w, 1, ProposalAction::DeleteProgram { program_id: key(40), spill: key(42) });
    match execute_proposal(&mut p, &mut w, key(50), 0, &seven, None, NOW) {
        Ok(OutsideCall::Invoke { instruction }) => {
            let loader = anchor_lang::solana_program::bpf_loader_upgradeable::id().to_bytes();
            assert_eq!(instruction.program_id.bytes, loader);
            assert_eq!(instruction.data, vec![5, 0, 0, 0]);
            let metas: Vec<(Pubkey, bool, bool)> = instruction.accounts.iter().map(|a| (a.key, a.is_signer, a.is_writable)).collect();
            assert_eq!(metas, vec![(key(41), false, true), (key(42), false, true), (key(50), true, false), (key(40), false, true)]);
        }
        _ => panic!("expected a close instruction"),
    }
    let mut p = propose(&mut w, 1, ProposalAction::DeleteProgram { program_id: key(40), spill: key(9) });
    assert_eq!(execute_proposal(&mut p, &mut w, key(50), 0, &seven, None, NOW).err(), Some(TeamWalletError::InvalidData));

    let mut p = propose(&mut w, 1, ProposalAction::TokenMint { mint: key(40), amount: 6, recipient: key(9) });
    // the token account passed must be the recipient
    assert_eq!(execute_proposal(&mut p, &mut w, key(50), 0, &seven, None, NOW).err(), Some(TeamWalletError::InvalidData));
    let mut p = propose(&mut w, 1, ProposalAction::TokenMint { mint: key(40), amount: 6, recipient: key(41) });
    match execute_proposal(&mut p, &mut w, key(50), 0, &seven, None, NOW) {
        Ok(OutsideCall::MintTo { program, mint, account, authority, amount }) => {
            assert_eq!((program, mint, account, authority, amount), (key(42), key(40), key(41), key(50), 6));
        }
        _ => panic!("expected a mint"),
    }
    let mut p = propose(&mut w, 1, ProposalAction::TokenBurn { mint: key(41), amount: 6 });
    assert_eq!(execute_proposal(&mut p, &mut w, key(50), 0, &seven, None, NOW).err(), Some(TeamWalletError::InvalidMint));
    let mut p = propose(&mut w, 1, ProposalAction::TokenBurn { mint: key(40), amount: 6 });
    assert!(matches!(execute_proposal(&mut p, &mut w, key(50), 0, &seven, None, NOW), Ok(OutsideCall::Burn { amount: 6, .. })));
    let mut p = propose(&mut w, 1, ProposalAction::TokenFreeze { mint: key(40), account: key(41) });
    assert!(matches!(execute_proposal(&mut p, &mut w, key(50), 0, &seven, None, NOW), Ok(OutsideCall::FreezeAccount { .. })));
    let mut p = propose(&mut w, 1, ProposalAction::TokenThaw { mint: key(40), account: key(42) });
    assert_eq!(execute_proposal(&mut p, &mut w, key(50), 0, &seven, None, NOW).err(), Some(TeamWalletError::InvalidData));
    let mut p = propose(&mut w, 1, ProposalAction::TokenThaw { mint: key(40), account: key(41) });
    assert!(matches!(execute_proposal(&mut p, &mut w, key(50), 0, &seven, None, NOW), Ok(OutsideCall::ThawAccount { .. })));
    let mut p = propose(&mut w, 1, ProposalAction::TokenSetMintAuthority { mint: key(40), new_authority: None });
    assert!(matches!(execute_proposal(&mut p, &mut w, key(50), 0, &seven, None, NOW), Ok(OutsideCall::SetAuthority { kind: AuthorityKind::MintTokens, new_authority: None, .. })));
    let mut p = propose(&mut w, 1, ProposalAction::TokenSetFreezeAuthority { mint: key(40), new_authority: Some(key(5)) });
    match execute_proposal(&mut p, &mut w, key(50), 0, &seven, None, NOW) {
        Ok(OutsideCall::SetAuthority { program, mint, authority, kind, new_authority }) => {
            assert_eq!((program, mint, authority), (key(41), key(40), key(50)));
            assert_eq!(kind, AuthorityKind::FreezeAccount);
            assert_eq!(new_authority, Some(key(5)));
        }
        _ => panic!("expected an authority change"),
    }
    let mut p = propose(&mut w, 1, ProposalAction::TokenUpdateMetadata { mint: key(40), name: "Team".to_string(), symbol: "TM".to_string(), uri: "https://x".to_string() });
    assert_eq!(execute_proposal(&mut p, &mut w, key(50), 0, &seven[..1].to_vec(), None, NOW).err(), Some(TeamWalletError::InvalidRemainingAccounts));
    match execute_proposal(&mut p, &mut w, key(50), 0, &seven, None, NOW) {
        Ok(OutsideCall::UpdateMetadata { name, symbol, uri }) => {
            let accounts = vec![(key(40), false, true), (key(50), true, false)];
            assert_eq!(field_update(&name), (key(41), accounts.clone(), 0, "Team".to_string()));
            assert_eq!(field_update(&symbol), (key(41), accounts.clone(), 1, "TM".to_string()));
            assert_eq!(field_update(&uri), (key(41), accounts, 2, "https://x".to_string()));
            assert_eq!(name.data[..8], [221u8, 233, 49, 45, 181, 202, 220, 200]);
            assert_eq!(name.data[..8], symbol.data[..8]);
        }
        _ => panic!("expected a metadata update"),
    }
    let mut p = propose(&mut w, 1, ProposalAction::TransferToken { amount: 3, recipient: key(9), mint: key(40) });
    assert_eq!(execute_proposal(&mut p, &mut w, key(50), 0, &seven[..3].to_vec(), None, NOW).err(), Some(TeamWalletError::InvalidRemainingAccounts));
    // the destination passed must be the recipient
    assert_eq!(execute_proposal(&mut p, &mut w, key(50), 0, &seven, None, NOW).err(), Some(TeamWalletError::InvalidData));
    let mut p = propose(&mut w, 1, ProposalAction::TransferToken { amount: 3, recipient: key(42), mint: key(40) });
    match execute_proposal(&mut p, &mut w, key(50), 0, &seven, None, NOW) {
        Ok(OutsideCall::TransferChecked { program, mint, from, to, authority, amount }) => {
            assert_eq!((program, mint, from, to, authority, amount), (key(43), key(40), key(41), key(42), key(50), 3));
        }
        _ => panic!("expected a transfer"),
    }
}

#[test]
fn entry_points_build_transfers() {
    let mut w = wallet(&[], 1);
    let mut p = create_proposal_sol(&mut w, key(50), key(1), 10, key(9), key(61), NOW, 1).unwrap();
    assert!(matches!(p.action, ProposalAction::TransferSol { amount: 10, .. }));
    assert_eq!(p.nonce, key(61));
    assert!(matches!(execute_proposal_sol(&mut p, &mut w, key(50), 10, &vec![acct(9)], NOW), Ok(OutsideCall::MoveLamports { amount: 10 })));
    let mut p = create_proposal_token(&mut w, key(50), key(1), 4, key(42), key(40), key(62), NOW, 1).unwrap();
    let four = vec![acct(40), acct(41), acct(42), acct(43)];
    assert!(matches!(execute_proposal_token(&mut p, &mut w, key(50), 0, &four, NOW), Ok(OutsideCall::TransferChecked { amount: 4, .. })));
    assert_eq!(w.proposal_count, 2);
    assert_eq!(create_proposal_sol(&mut w, key(50), key(1), 0, key(9), key(61), NOW, 1).err(), Some(TeamWalletError::InvalidAmount));
}

#[test]
fn cancelling_and_closing() {
    let mut w = wallet(&[2], 2);
    add_contributor(&mut w, key(20)).unwrap();
    let mut p = propose(&mut w, 20, sol(1, 9));
    assert_eq!(close_proposal(&p, &w, key(20)), Err(TeamWalletError::ProposalNotExpired));
    assert_eq!(cancel_proposal(&mut p, &w, key(2)), Err(TeamWalletError::NotAuthorizedToCancel));
    assert!(!p.cancelled);
    assert_eq!(cancel_proposal(&mut p, &w, key(20)), Ok(()));
    assert!(p.cancelled);
    assert_eq!(cancel_proposal(&mut p, &w, key(1)), Err(TeamWalletError::ProposalAlreadyCancelled));
    assert_eq!(close_proposal(&p, &w, key(2)), Err(TeamWalletError::NotAuthorizedToCancel));
    assert_eq!(close_proposal(&p, &w, key(1)), Ok(()));

    let mut p = propose(&mut w, 1, sol(1, 9));
    assert_eq!(cancel_expired_proposal(&mut p, NOW + DEFAULT_EXPIRY), Err(TeamWalletError::ProposalNotExpired));
    assert_eq!(cancel_expired_proposal(&mut p, NOW + DEFAULT_EXPIRY + 1), Ok(()));
    assert!(p.cancelled);
    assert_eq!(cancel_expired_proposal(&mut p, NOW + DEFAULT_EXPIRY + 1), Err(TeamWalletError::ProposalAlreadyCancelled));

    let mut w1 = wallet(&[], 1);
    let mut p = propose(&mut w1, 1, sol(1, 9));
    execute_proposal(&mut p, &mut w1, key(50), 5, &vec![acct(9)], None, NOW).unwrap();
    assert_eq!(cancel_proposal(&mut p, &w1, key(1)), Err(TeamWalletError::ProposalAlreadyExecuted));
    assert_eq!(cancel_expired_proposal(&mut p, NOW + DEFAULT_EXPIRY + 1), Err(TeamWalletError::ProposalAlreadyExecuted));
    assert_eq!(close_proposal(&p, &w1, key(1)), Ok(()));
}

#[test]
fn can_execute_follows_the_snapshot_threshold() {
    let mut w = wallet(&[2], 2);
    let mut p = propose(&mut w, 1, sol(1, 9));
    assert!(!p.can_execute(NOW, 0));
    vote_proposal(&mut p, key(2), true, NOW).unwrap();
    assert!(p.can_execute(NOW, 0));
    assert!(!p.can_execute(NOW + DEFAULT_EXPIRY + 1, 0));
    assert!(!p.is_execution_window_expired(NOW));
    assert!(p.is_execution_window_expired(NOW + 1));
    assert!(p.is_expired(NOW + DEFAULT_EXPIRY + 1));
    let mut w = wallet(&[], 1);
    let s = propose(&mut w, 1, ProposalAction::Swap { input_mint: key(3), output_mint: key(4), amount_in: 5, min_amount_out: 4, slippage_bps: 100 });
    assert!(s.action.requires_execution_window());
    assert!(s.can_execute(NOW + 3600, 0));
    assert!(!s.can_execute(NOW + 3601, 0));
    assert!(s.is_execution_window_expired(NOW + 3601));
}
