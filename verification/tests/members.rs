use teamwallet::errors::TeamWalletError;
use teamwallet::instructions::add_contributor::add_contributor;
use teamwallet::instructions::add_voter::add_voter;
use teamwallet::instructions::initialize_team_wallet::initialize_team_wallet;
use teamwallet::instructions::remove_contributor::remove_contributor;
use teamwallet::instructions::remove_voter::remove_voter;
use teamwallet::instructions::set_threshold::set_threshold;
use teamwallet::pubkey::Pubkey;
use teamwallet::state::team_wallet::TeamWallet;

fn key(n: u8) -> Pubkey {
    Pubkey::new_from_array([n; 32])
}

fn wallet(voters: &[u8], threshold: u8) -> TeamWallet {
    initialize_team_wallet(key(1), "Engineering Team".to_string(), threshold, voters.iter().map(|n| key(*n)).collect(), 254)
        .unwrap()
}

#[test]
fn initialize_puts_owner_first() {
    let w = wallet(&[2, 3, 4], 3);
    assert_eq!(w.owner, key(1));
    assert_eq!(w.name, "Engineering Team");
    assert_eq!(w.voters, vec![key(1), key(2), key(3), key(4)]);
    assert!(w.contributors.is_empty());
    assert_eq!(w.voter_count, 4);
    assert_eq!(w.vote_threshold, 3);
    assert_eq!(w.proposal_count, 0);
    assert_eq!(w.bump, 254);
}

#[test]
fn initialize_with_no_voters_and_threshold_one() {
    let w = wallet(&[], 1);
    assert_eq!(w.voters, vec![key(1)]);
    assert_eq!(w.voter_count, 1);
}

#[test]
fn initialize_refuses_eleven_voters() {
    let voters: Vec<Pubkey> = (2..13).map(key).collect();
    assert_eq!(voters.len(), 11);
    let r = initialize_team_wallet(key(1), "t".to_string(), 1, voters, 0);
    assert_eq!(r.err(), Some(TeamWalletError::MaxVotersReached));
    let ten: Vec<Pubkey> = (2..12).map(key).collect();
    let mut w = initialize_team_wallet(key(1), "t".to_string(), 15, ten, 0).unwrap();
    assert_eq!(w.voter_count, 11);
    // a wallet at its voter limit takes no more
    assert_eq!(add_voter(&mut w, key(100)), Err(TeamWalletError::MaxVotersReached));
}

#[test]
fn initialize_refuses_duplicates() {
    let r = initialize_team_wallet(key(1), "t".to_string(), 1, vec![key(2), key(3), key(2)], 0);
    assert_eq!(r.err(), Some(TeamWalletError::DuplicateVoter));
}

#[test]
fn initialize_refuses_owner_among_voters() {
    let r = initialize_team_wallet(key(1), "t".to_string(), 1, vec![key(2), key(1)], 0);
    assert_eq!(r.err(), Some(TeamWalletError::OwnerInMembersList));
}

#[test]
fn initialize_refuses_bad_thresholds() {
    let r = initialize_team_wallet(key(1), "t".to_string(), 0, vec![key(2)], 0);
    assert_eq!(r.err(), Some(TeamWalletError::InvalidThreshold));
    let r = initialize_team_wallet(key(1), "t".to_string(), 101, vec![key(2)], 0);
    assert_eq!(r.err(), Some(TeamWalletError::InvalidThreshold));
    assert!(initialize_team_wallet(key(1), "t".to_string(), 100, vec![key(2)], 0).is_ok());
}

#[test]
fn threshold_is_a_percentage_of_the_voters() {
    let owner = Pubkey::new_from_array([9; 32]);
    let voters = vec![key(1), key(2), key(3)];
    let w = initialize_team_wallet(owner, "Engineering Team".to_string(), 60, voters.clone(), 0).unwrap();
    assert_eq!(w.vote_threshold, 60);
    assert_eq!(w.voters, vec![owner, key(1), key(2), key(3)]);
    assert_eq!(w.voter_count, 4);
    // 60% of four voters, rounded up, is three votes
    assert_eq!(w.votes_needed(), 3);
    let w = initialize_team_wallet(owner, "t".to_string(), 50, voters, 0).unwrap();
    assert_eq!(w.votes_needed(), 2);
}

#[test]
fn add_voter_appends_and_counts() {
    let mut w = wallet(&[2], 1);
    assert_eq!(add_voter(&mut w, key(9)), Ok(()));
    assert_eq!(w.voters, vec![key(1), key(2), key(9)]);
    assert_eq!(w.voter_count, 3);
    assert_eq!(w.vote_threshold, 1);
}

#[test]
fn add_voter_refuses_existing_voter_and_leaves_wallet() {
    let mut w = wallet(&[2], 1);
    assert_eq!(add_voter(&mut w, key(2)), Err(TeamWalletError::VoterAlreadyExists));
    assert_eq!(w.voters, vec![key(1), key(2)]);
    assert_eq!(w.voter_count, 2);
}

#[test]
fn add_voter_refuses_eleventh_voter() {
    let mut w = wallet(&(2..10).collect::<Vec<u8>>(), 1);
    assert_eq!(w.voters.len(), 9);
    assert_eq!(add_voter(&mut w, key(99)), Ok(()));
    assert_eq!(w.voters.len(), 10);
    assert_eq!(add_voter(&mut w, key(100)), Err(TeamWalletError::MaxVotersReached));
    assert_eq!(w.voters.len(), 10);
}

#[test]
fn remove_voter_keeps_order_and_threshold() {
    let mut w = wallet(&[2, 3, 4], 4);
    assert_eq!(remove_voter(&mut w, key(3)), Ok(()));
    assert_eq!(w.voters, vec![key(1), key(2), key(4)]);
    assert_eq!(w.voter_count, 3);
    // the threshold, a percentage, stays
    assert_eq!(w.vote_threshold, 4);
}

#[test]
fn remove_voter_refusals() {
    let mut w = wallet(&[2], 1);
    assert_eq!(remove_voter(&mut w, key(7)), Err(TeamWalletError::VoterNotFound));
    assert_eq!(remove_voter(&mut w, key(1)), Err(TeamWalletError::CannotRemoveOwner));
    assert_eq!(w.voters, vec![key(1), key(2)]);
}

#[test]
fn remove_voter_undoes_add_voter() {
    let mut w = wallet(&[2, 3], 2);
    let before = w.voters.clone();
    add_voter(&mut w, key(8)).unwrap();
    remove_voter(&mut w, key(8)).unwrap();
    assert_eq!(w.voters, before);
    assert_eq!(w.voter_count, 3);
}

#[test]
fn add_contributor_rules() {
    let mut w = wallet(&[2], 1);
    assert_eq!(add_contributor(&mut w, key(2)), Err(TeamWalletError::AlreadyAVoter));
    assert_eq!(add_contributor(&mut w, key(20)), Ok(()));
    assert_eq!(add_contributor(&mut w, key(20)), Err(TeamWalletError::ContributorAlreadyExists));
    for n in 21..30 {
        assert_eq!(add_contributor(&mut w, key(n)), Ok(()));
    }
    assert_eq!(w.contributors.len(), 10);
    assert_eq!(add_contributor(&mut w, key(30)), Err(TeamWalletError::MaxContributorsReached));
    assert_eq!(w.contributors.len(), 10);
}

#[test]
fn remove_contributor_undoes_add_contributor() {
    let mut w = wallet(&[2], 1);
    add_contributor(&mut w, key(20)).unwrap();
    add_contributor(&mut w, key(21)).unwrap();
    assert_eq!(remove_contributor(&mut w, key(20)), Ok(()));
    assert_eq!(w.contributors, vec![key(21)]);
    assert_eq!(remove_contributor(&mut w, key(20)), Err(TeamWalletError::ContributorNotFound));
    remove_contributor(&mut w, key(21)).unwrap();
    assert!(w.contributors.is_empty());
}

#[test]
fn set_threshold_bounds() {
    let mut w = wallet(&[2, 3], 1);
    assert_eq!(set_threshold(&mut w, 0), Err(TeamWalletError::InvalidThreshold));
    assert_eq!(set_threshold(&mut w, 101), Err(TeamWalletError::InvalidThreshold));
    assert_eq!(w.vote_threshold, 1);
    assert_eq!(set_threshold(&mut w, 100), Ok(()));
    assert_eq!(w.vote_threshold, 100);
    assert_eq!(w.votes_needed(), 3);
}

#[test]
fn account_sizes() {
    assert_eq!(TeamWallet::MAX_SIZE, 1055);
    assert_eq!(TeamWallet::MAX_NAME_LEN, 32);
    assert_eq!(teamwallet::state::proposal::ProposalAction::MAX_SIZE, 369);
    assert_eq!(teamwallet::state::proposal::Proposal::SPACE, 1510);
}
