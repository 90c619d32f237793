//! Creating a proposal of any kind.

use vstd::prelude::*;
use crate::errors::TeamWalletError;
use crate::pubkey::{Pubkey, contains_key, copy_keys, first_index_of, position};
use crate::state::proposal::{Proposal, ProposalAction};
use crate::state::team_wallet::{TeamWallet, lemma_votes_required_small};

verus! {

broadcast use vstd::seq_lib::group_seq_properties;

/// Why an action's own arguments are refused.
pub open spec fn action_error(action: ProposalAction) -> Option<TeamWalletError> {
    match action {
        ProposalAction::TransferSol { amount, .. } => if amount == 0 {
            Some(TeamWalletError::InvalidAmount)
        } else {
            None
        },
        ProposalAction::TransferToken { amount, .. } => if amount == 0 {
            Some(TeamWalletError::InvalidAmount)
        } else {
            None
        },
        ProposalAction::Swap { input_mint, output_mint, amount_in, min_amount_out, slippage_bps } => {
            if amount_in == 0 {
                Some(TeamWalletError::InvalidAmount)
            } else if min_amount_out == 0 {
                Some(TeamWalletError::InvalidAmount)
            } else if input_mint == output_mint {
                Some(TeamWalletError::SameMintSwap)
            } else if slippage_bps > 5000 {
                Some(TeamWalletError::SlippageTooHigh)
            } else {
                None
            }
        },
        ProposalAction::ChangeThreshold { new_threshold } => if new_threshold < 1 {
            Some(TeamWalletError::InvalidThreshold)
        } else {
            None
        },
        ProposalAction::TokenMint { amount, .. } => if amount == 0 {
            Some(TeamWalletError::InvalidAmount)
        } else {
            None
        },
        ProposalAction::TokenBurn { amount, .. } => if amount == 0 {
            Some(TeamWalletError::InvalidAmount)
        } else {
            None
        },
        _ => None,
    }
}

/// Checks the action-specific requirements: positive amounts, a swap between two
/// different mints with at most 50% slippage, a threshold of at least one.
pub fn validate_action(action: &ProposalAction) -> (r: Result<(), TeamWalletError>)
    ensures
        match r {
            Ok(()) => action_error(*action) is None,
            Err(e) => action_error(*action) == Some(e),
        },
{
    match action {
        ProposalAction::TransferSol { amount, .. } => {
            if *amount == 0 {
                return Err(TeamWalletError::InvalidAmount);
            }
        },
        ProposalAction::TransferToken { amount, .. } => {
            if *amount == 0 {
                return Err(TeamWalletError::InvalidAmount);
            }
        },
        ProposalAction::Swap { input_mint, output_mint, amount_in, min_amount_out, slippage_bps } => {
            if *amount_in == 0 {
                return Err(TeamWalletError::InvalidAmount);
            }
            if *min_amount_out == 0 {
                return Err(TeamWalletError::InvalidAmount);
            }
            if crate::pubkey::key_eq(input_mint, output_mint) {
                return Err(TeamWalletError::SameMintSwap);
            }
            if *slippage_bps > 5000 {
                return Err(TeamWalletError::SlippageTooHigh);
            }
        },
        ProposalAction::ChangeThreshold { new_threshold } => {
            if *new_threshold < 1 {
                return Err(TeamWalletError::InvalidThreshold);
            }
        },
        ProposalAction::TokenMint { amount, .. } => {
            if *amount == 0 {
                return Err(TeamWalletError::InvalidAmount);
            }
        },
        ProposalAction::TokenBurn { amount, .. } => {
            if *amount == 0 {
                return Err(TeamWalletError::InvalidAmount);
            }
        },
        _ => {},
    }
    Ok(())
}

/// Holds of the addresses that `s` does not list.
pub open spec fn not_in(s: Seq<Pubkey>) -> spec_fn(Pubkey) -> bool {
    |c: Pubkey| !s.contains(c)
}

/// Who may vote on a new proposal: the voters, then each contributor who is not a voter.
pub open spec fn proposal_snapshot(w: TeamWallet) -> Seq<Pubkey> {
    w.voters@ + w.contributors@.filter(not_in(w.voters@))
}

/// Why creating a proposal is refused, checked in this order: only a member (the owner,
/// a voter or a contributor) may propose, then the action's own arguments are checked.
pub open spec fn create_proposal_error(w: TeamWallet, proposer: Pubkey, action: ProposalAction) -> Option<
    TeamWalletError,
> {
    if !w.is_member(proposer) {
        Some(TeamWalletError::NotAuthorizedToCreate)
    } else {
        action_error(action)
    }
}

/// The wallet's voters, then its contributors who are not voters.
pub fn snapshot_voters(team_wallet: &TeamWallet) -> (r: Vec<Pubkey>)
    requires
        team_wallet.wf(),
    ensures
        r@ == proposal_snapshot(*team_wallet),
        r@.no_duplicates(),
        r@.len() <= Proposal::MAX_SNAPSHOT,
        forall|k: Pubkey| #[trigger] r@.contains(k) <==> team_wallet.voters@.contains(k)
            || team_wallet.contributors@.contains(k),
{
    let ghost voters = team_wallet.voters@;
    let ghost contributors = team_wallet.contributors@;
    let mut snapshot = copy_keys(&team_wallet.voters);
    let mut i: usize = 0;
    while i < team_wallet.contributors.len()
        invariant
            team_wallet.wf(),
            voters == team_wallet.voters@,
            contributors == team_wallet.contributors@,
            i <= contributors.len(),
            snapshot@ == voters + contributors.take(i as int).filter(not_in(voters)),
            snapshot@.no_duplicates(),
            snapshot@.len() <= voters.len() + i,
            forall|k: Pubkey| #[trigger]
                snapshot@.contains(k) <==> voters.contains(k) || contributors.take(
                    i as int,
                ).contains(k),
        decreases contributors.len() - i,
    {
        let c = team_wallet.contributors[i];
        let ghost before = snapshot@;
        proof {
            reveal(Seq::filter);
            let t0 = contributors.take(i as int);
            let t1 = contributors.take(i as int + 1);
            assert(t1.drop_last() =~= t0);
            assert(t1.last() == c);
            assert(!t0.contains(c)) by {
                if t0.contains(c) {
                    let j = choose|j: int| 0 <= j < t0.len() && t0[j] == c;
                    assert(contributors[j] == contributors[i as int]);
                }
            }
            assert forall|k: Pubkey| t1.contains(k) <==> t0.contains(k) || k == c by {
                if t1.contains(k) && k != c {
                    let j = choose|j: int| 0 <= j < t1.len() && t1[j] == k;
                    assert(t0[j] == k);
                }
                if t0.contains(k) {
                    let j = choose|j: int| 0 <= j < t0.len() && t0[j] == k;
                    assert(t1[j] == k);
                }
                if k == c {
                    assert(t1[i as int] == k);
                }
            }
        }
        if !contains_key(&snapshot, &c) {
            snapshot.push(c);
            proof {
                let s = snapshot@;
                assert forall|a: int, b: int|
                    0 <= a < s.len() && 0 <= b < s.len() && a != b implies s[a] != s[b] by {
                    if a == before.len() {
                        assert(s[b] == before[b]);
                    } else if b == before.len() {
                        assert(s[a] == before[a]);
                    } else {
                        assert(s[a] == before[a] && s[b] == before[b]);
                    }
                }
                assert(s.last() == c);
            }
        }
        i = i + 1;
    }
    proof {
        assert(contributors.take(contributors.len() as int) =~= contributors);
    }
    snapshot
}

/// The proposal created for `action`, and the wallet after counting it.
pub open spec fn proposal_created(
    w: TeamWallet,
    new_w: TeamWallet,
    team_wallet_key: Pubkey,
    proposer: Pubkey,
    action: ProposalAction,
    nonce: Pubkey,
    now: i64,
    bump: u8,
    p: Proposal,
) -> bool {
    let snapshot = proposal_snapshot(w);
    &&& p.team_wallet == team_wallet_key
    &&& p.proposer == proposer
    &&& p.action == action
    &&& p.snapshot_voters@ == snapshot
    &&& p.snapshot_threshold == w.votes_required()
    &&& p.votes_for == 1
    &&& p.votes_against == 0
    &&& p.voters_voted@ == seq![first_index_of(snapshot, proposer) as u8]
    &&& !p.executed
    &&& !p.cancelled
    &&& p.created_at == now
    &&& p.expires_at == now + Proposal::DEFAULT_EXPIRY
    &&& p.execution_window == (if action is Swap {
        Proposal::DEFAULT_EXECUTION_WINDOW
    } else {
        0
    })
    &&& p.approved == (1 >= w.votes_required())
    &&& p.approved_at == (if 1 >= w.votes_required() {
        now
    } else {
        0
    })
    &&& p.bump == bump
    &&& p.nonce == nonce
    &&& p.wf()
    &&& new_w.proposal_count == (if w.proposal_count == u64::MAX {
        u64::MAX
    } else {
        (w.proposal_count + 1) as u64
    })
    &&& new_w.same_but_proposal_count(&w)
}

/// Creates a proposal for `action`. The proposer's vote counts for it at once, the
/// snapshot of eligible voters and the votes that the threshold asks for are fixed now,
/// and the proposal is approved at once when one vote is enough. The wallet counts one more proposal.
pub fn create_proposal(
    team_wallet: &mut TeamWallet,
    team_wallet_key: Pubkey,
    proposer: Pubkey,
    action: ProposalAction,
    nonce: Pubkey,
    now: i64,
    bump: u8,
) -> (r: Result<Proposal, TeamWalletError>)
    requires
        old(team_wallet).wf(),
        now + Proposal::DEFAULT_EXPIRY <= i64::MAX,
    ensures
        match r {
            Err(e) => create_proposal_error(*old(team_wallet), proposer, action) == Some(e)
                && *final(team_wallet) == *old(team_wallet),
            Ok(p) => create_proposal_error(*old(team_wallet), proposer, action) is None
                && proposal_created(*old(team_wallet), *final(team_wallet), team_wallet_key, proposer, action, nonce, now, bump, p),
        },
        final(team_wallet).wf(),
{
    let is_voter = contains_key(&team_wallet.voters, &proposer);
    let is_contributor = contains_key(&team_wallet.contributors, &proposer);
    let is_owner = crate::pubkey::key_eq(&team_wallet.owner, &proposer);
    if !(is_voter || is_contributor || is_owner) {
        return Err(TeamWalletError::NotAuthorizedToCreate);
    }
    validate_action(&action)?;
    let created_at = now;
    let expires_at = created_at + Proposal::DEFAULT_EXPIRY;
    let snapshot = snapshot_voters(team_wallet);
    proof {
        if is_owner {
            assert(team_wallet.voters@[0] == proposer);
            assert(team_wallet.voters@.contains(proposer));
        }
        if team_wallet.voters@.contains(proposer) {
            let j = choose|j: int| 0 <= j < team_wallet.voters@.len() && team_wallet.voters@[j] == proposer;
            assert(snapshot@[j] == proposer);
        }
        assert(snapshot@.contains(proposer));
    }
    let proposer_index: u8 = match position(&snapshot, &proposer) {
        Some(i) => i as u8,
        None => 0,
    };
    let requires_window = action.requires_execution_window();
    let execution_window: i64 = if requires_window {
        Proposal::DEFAULT_EXECUTION_WINDOW
    } else {
        0
    };
    let votes_for: u8 = 1;
    let needed = team_wallet.votes_needed();
    proof {
        lemma_votes_required_small(team_wallet.voter_count as int, team_wallet.vote_threshold as int);
    }
    let snapshot_threshold: u8 = needed as u8;
    let approved = votes_for as u16 >= needed;
    let approved_at: i64 = if approved {
        created_at
    } else {
        0
    };
    let mut voters_voted: Vec<u8> = Vec::new();
    voters_voted.push(proposer_index);
    let proposal = Proposal {
        team_wallet: team_wallet_key,
        proposer,
        action,
        votes_for,
        votes_against: 0,
        voters_voted,
        snapshot_voters: snapshot,
        snapshot_threshold,
        executed: false,
        cancelled: false,
        created_at,
        expires_at,
        approved,
        approved_at,
        execution_window,
        bump,
        nonce,
    };
    team_wallet.proposal_count = team_wallet.proposal_count.saturating_add(1);
    Ok(proposal)
}

} // verus!
