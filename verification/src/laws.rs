//! Properties that hold across the wallet's instructions.

use vstd::prelude::*;
use crate::errors::TeamWalletError;
use crate::instructions::add_contributor::contributor_added;
use crate::instructions::add_voter::voter_added;
use crate::instructions::create_proposal::proposal_created;
use crate::instructions::execute_proposal::{
    execute_check_error, execute_outcome, voter_removed_by_proposal,
};
use crate::instructions::remove_contributor::contributor_removed;
use crate::instructions::threshold_proposal::{execute_threshold_error, threshold_voted, vote_threshold_error};
use crate::instructions::swap_proposal::execute_swap_proposal_error;
use crate::instructions::execute_swap_intent::execute_swap_intent_error;
use crate::cpi::{AccountRef, TokenAccountState};
use crate::state::swap_proposal::SwapProposalState;
use crate::instructions::vote_proposal::{vote_error, voted, voter_slot};
use crate::pubkey::{Pubkey, lemma_distinct_positions_bounded, without, lemma_without_unique};
use crate::state::proposal::Proposal;
use crate::state::team_wallet::TeamWallet;
use crate::state::threshold_proposal::ThresholdProposal;
use crate::state::token_proposal::TokenProposal;
use crate::state::swap_intent::SwapIntent;
use crate::state::upgrade_proposal::UpgradeProposal;
use crate::instructions::upgrade_program::{execute_upgrade_error, vote_upgrade_error};
use crate::instructions::delete_program::execute_delete_error;
use crate::instructions::token_manager::execute_token_check_error;
use crate::state::delete_proposal::DeleteProposal;
use crate::state::team_wallet::votes_required;
use crate::instructions::vote_token_proposal::vote_token_error;
use crate::instructions::vote_swap_intent::{vote_swap_intent_error, vote_swap_intent_outcome};

verus! {

/// On a proposal, the votes cast never outnumber the voters in its snapshot, and so never
/// more than thirty.
pub proof fn law_votes_within_snapshot(p: Proposal)
    requires
        p.wf(),
    ensures
        p.votes_for + p.votes_against <= p.snapshot_voters@.len() <= Proposal::MAX_SNAPSHOT,
{
    lemma_distinct_positions_bounded(p.voters_voted@, p.snapshot_voters@.len());
}

/// Each voter votes once: after a vote is accepted, the same voter's next vote on the
/// proposal is refused, as a repeated vote while the proposal is open and unexpired.
pub proof fn law_vote_once(p: Proposal, q: Proposal, voter: Pubkey, vote_for: bool, now: i64, later: i64)
    requires
        p.wf(),
        vote_error(p, voter, now) is None,
        voted(p, q, voter, vote_for, now),
    ensures
        vote_error(q, voter, later) is Some,
        !q.cancelled && later <= q.expires_at ==> vote_error(q, voter, later) == Some(
            TeamWalletError::AlreadyVoted,
        ),
{
    let slot = voter_slot(p.snapshot_voters@, voter);
    assert(q.voters_voted@[q.voters_voted@.len() - 1] == slot);
    assert(q.voters_voted@.contains(slot));
}

/// A proposal is approved exactly when its votes for reach its snapshot threshold: this
/// holds of every new proposal and every accepted vote keeps it.
pub proof fn law_approved_iff_threshold_reached(
    w: TeamWallet,
    w2: TeamWallet,
    team_wallet_key: Pubkey,
    proposer: Pubkey,
    action: crate::state::proposal::ProposalAction,
    nonce: Pubkey,
    now: i64,
    bump: u8,
    created: Proposal,
    p: Proposal,
    q: Proposal,
    voter: Pubkey,
    vote_for: bool,
    later: i64,
)
    requires
        proposal_created(w, w2, team_wallet_key, proposer, action, nonce, now, bump, created),
        p.approved == (p.votes_for >= p.snapshot_threshold),
        voted(p, q, voter, vote_for, later),
    ensures
        created.approved == (created.votes_for >= created.snapshot_threshold),
        q.approved == (q.votes_for >= q.snapshot_threshold),
{
}

/// A proposal is carried out only while it is open and unexpired and its votes for reach
/// the wallet's current threshold; a swap besides only when approved and within its window.
/// A refused execution changes neither the proposal nor the wallet.
pub proof fn law_execution_needs_threshold(
    p: Proposal,
    q: Proposal,
    w: TeamWallet,
    w2: TeamWallet,
    team_wallet_key: Pubkey,
    lamports: u64,
    remaining: Seq<crate::cpi::AccountRef>,
    swap_data: Option<Seq<u8>>,
    now: i64,
    r: Result<crate::cpi::OutsideCall, TeamWalletError>,
)
    requires
        execute_outcome(p, q, w, w2, team_wallet_key, lamports, remaining, swap_data, now, r),
    ensures
        r is Ok ==> !p.executed && !p.cancelled && now <= p.expires_at && p.votes_for >= w.votes_required(),
        r is Ok && p.action is Swap ==> p.approved && now <= p.window_deadline(),
        r is Err ==> q == p && w2 == w,
{
}

/// An executed proposal stays executed: it can neither be executed again nor voted on.
pub proof fn law_executed_is_final(
    p: Proposal,
    q: Proposal,
    w: TeamWallet,
    w2: TeamWallet,
    team_wallet_key: Pubkey,
    lamports: u64,
    remaining: Seq<crate::cpi::AccountRef>,
    swap_data: Option<Seq<u8>>,
    now: i64,
    r: Result<crate::cpi::OutsideCall, TeamWalletError>,
    any_wallet: TeamWallet,
    voter: Pubkey,
    later: i64,
)
    requires
        execute_outcome(p, q, w, w2, team_wallet_key, lamports, remaining, swap_data, now, r),
        r is Ok,
    ensures
        execute_check_error(q, any_wallet, later) == Some(TeamWalletError::ProposalAlreadyExecuted),
        vote_error(q, voter, later) == Some(TeamWalletError::ProposalAlreadyExecuted),
{
}

/// An expired proposal can neither be voted on nor executed.
pub proof fn law_expired_is_closed(p: Proposal, w: TeamWallet, voter: Pubkey, now: i64)
    requires
        now > p.expires_at,
    ensures
        vote_error(p, voter, now) is Some,
        execute_check_error(p, w, now) is Some,
{
}

/// When the votes the wallet's threshold asks for are still those fixed at the proposal's
/// creation, whether the proposal may be executed is what `can_execute` says.
pub proof fn law_can_execute_agrees(p: Proposal, w: TeamWallet, now: i64)
    requires
        w.votes_required() == p.snapshot_threshold,
    ensures
        (execute_check_error(p, w, now) is None) == p.spec_can_execute(now),
{
}

/// Adding a voter who was not there and then removing that voter gives back the same
/// voters and voter count.
pub proof fn law_remove_voter_undoes_add(w0: TeamWallet, w1: TeamWallet, w2: TeamWallet, voter: Pubkey)
    requires
        !w0.voters@.contains(voter),
        voter_added(w0, w1, voter),
        w2.voters@ == without(w1.voters@, voter),
        w2.voter_count == w1.voter_count - 1,
    ensures
        w2.voters@ == w0.voters@,
        w2.voter_count == w0.voter_count,
{
    let s = w1.voters@;
    let i = s.len() - 1;
    assert forall|j: int| 0 <= j < s.len() && j != i implies s[j] != voter by {
        assert(s[j] == w0.voters@[j]);
    }
    lemma_without_unique(s, voter, i);
    assert(s.remove(i) =~= w0.voters@);
}

/// Adding a contributor who was not there and then removing that contributor gives back
/// the same contributors.
pub proof fn law_remove_contributor_undoes_add(w0: TeamWallet, w1: TeamWallet, w2: TeamWallet, contributor: Pubkey)
    requires
        !w0.contributors@.contains(contributor),
        contributor_added(w0, w1, contributor),
        contributor_removed(w1, w2, contributor),
    ensures
        w2.contributors@ == w0.contributors@,
        w2.voters@ == w0.voters@,
{
    let s = w1.contributors@;
    let i = s.len() - 1;
    assert forall|j: int| 0 <= j < s.len() && j != i implies s[j] != contributor by {
        assert(s[j] == w0.contributors@[j]);
    }
    lemma_without_unique(s, contributor, i);
    assert(s.remove(i) =~= w0.contributors@);
}

/// A valid threshold stays valid when a voter is added, and when a voter is removed by
/// proposal: the threshold is a percentage, which the voter count does not bound.
pub proof fn law_threshold_stays_valid(w0: TeamWallet, w1: TeamWallet, w2: TeamWallet, added: Pubkey, removed: Pubkey)
    requires
        w0.threshold_valid(),
        voter_added(w0, w1, added),
        voter_removed_by_proposal(w0, w2, removed),
    ensures
        w1.threshold_valid(),
        w2.threshold_valid(),
{
}

/// Under a valid threshold the votes required are at least one and never more than the
/// wallet has voters, so every threshold can be reached.
pub proof fn law_required_votes_reachable(w: TeamWallet)
    requires
        w.wf(),
        w.threshold_valid(),
    ensures
        1 <= w.votes_required() <= w.voter_count,
{
    let c = w.voter_count as int;
    let t = w.vote_threshold as int;
    assert(1 <= (c * t + 99) / 100 <= c) by (nonlinear_arith)
        requires 1 <= c, 1 <= t <= 100;
}

/// On a threshold proposal each voter votes once as well.
pub proof fn law_threshold_vote_once(p: ThresholdProposal, q: ThresholdProposal, voter: Pubkey, vote_for: bool, now: i64, later: i64)
    requires
        vote_threshold_error(p, voter, now) is None,
        threshold_voted(p, q, voter, vote_for),
    ensures
        vote_threshold_error(q, voter, later) is Some,
        !q.cancelled && later <= q.expires_at ==> vote_threshold_error(q, voter, later) == Some(
            TeamWalletError::AlreadyVoted,
        ),
{
    assert(q.voters_voted@[q.voters_voted@.len() - 1] == voter);
    assert(q.snapshot_voters@.contains(voter));
}

/// On a token proposal each voter votes once: the same voter's next vote is refused.
pub proof fn law_token_vote_once(p: TokenProposal, q: TokenProposal, voter: Pubkey, now: i64, later: i64)
    requires
        vote_token_error(p, voter, now) is None,
        q.voters_voted@ == p.voters_voted@.push(voter_slot(p.snapshot_voters@, voter)),
        q.snapshot_voters@ == p.snapshot_voters@,
    ensures
        vote_token_error(q, voter, later) is Some,
{
    assert(q.voters_voted@[q.voters_voted@.len() - 1] == voter_slot(q.snapshot_voters@, voter));
}

/// On a swap intent each voter votes once, and once approved it stays approved with the
/// time of its approval kept.
pub proof fn law_swap_intent_vote_once(
    i: SwapIntent,
    j: SwapIntent,
    w: TeamWallet,
    voter: Pubkey,
    vote_for: bool,
    now: i64,
    later: i64,
    r: Result<(), TeamWalletError>,
)
    requires
        i.wf(),
        vote_swap_intent_outcome(i, j, w, voter, vote_for, now, r),
        r is Ok,
    ensures
        vote_swap_intent_error(j, voter, later) is Some,
        i.approved ==> j.approved && j.approved_at == i.approved_at,
{
    assert(j.voters_voted@[j.voters_voted@.len() - 1] == voter_slot(j.snapshot_voters@, voter));
}

/// On an upgrade proposal each member votes once: once a vote is recorded, the same
/// voter's next vote is refused, whatever the wallet then is.
pub proof fn law_upgrade_vote_once(p: UpgradeProposal, q: UpgradeProposal, w: TeamWallet, w2: TeamWallet, voter: Pubkey)
    requires
        vote_upgrade_error(p, w, voter) is None,
        q.voters_voted@ == p.voters_voted@.push(voter),
    ensures
        vote_upgrade_error(q, w2, voter) is Some,
{
    assert(q.voters_voted@[q.voters_voted@.len() - 1] == voter);
}

/// An accepted vote cancels a proposal exactly when its threshold has become unreachable:
/// even if every snapshot voter who has not voted yet voted for it, the votes for would fall
/// short of the snapshot threshold. A vote that leaves the threshold reachable never cancels
/// it, and a vote for never cancels a proposal that could still pass before it.
pub proof fn law_vote_cancels_only_when_unreachable(p: Proposal, q: Proposal, voter: Pubkey, vote_for: bool, now: i64)
    requires
        p.wf(),
        vote_error(p, voter, now) is None,
        voted(p, q, voter, vote_for, now),
    ensures
        q.cancelled <==> q.votes_for + (q.snapshot_voters@.len() - q.voters_voted@.len()) < q.snapshot_threshold,
        q.voters_voted@.len() == p.voters_voted@.len() + 1,
        q.votes_for + q.votes_against == p.votes_for + p.votes_against + 1,
        vote_for && p.votes_for + (p.snapshot_voters@.len() - p.voters_voted@.len()) >= p.snapshot_threshold
            ==> !q.cancelled,
{
}

/// On a threshold proposal only a vote against can cancel, and it cancels exactly when
/// the votes for plus the snapshot voters still to vote fall short of the votes that the old
/// threshold asks of the snapshot; while the threshold stays reachable the proposal stays open.
pub proof fn law_threshold_vote_cancels_only_when_unreachable(
    p: ThresholdProposal,
    q: ThresholdProposal,
    voter: Pubkey,
    vote_for: bool,
    now: i64,
)
    requires
        p.wf(),
        vote_threshold_error(p, voter, now) is None,
        threshold_voted(p, q, voter, vote_for),
    ensures
        q.cancelled ==> !vote_for,
        q.cancelled <==> (!vote_for && q.votes_for + (q.snapshot_voters@.len() - q.voters_voted@.len())
            < votes_required(q.snapshot_voters@.len() as int, q.old_threshold as int)),
        q.votes_for + (q.snapshot_voters@.len() - q.voters_voted@.len()) >= votes_required(
            q.snapshot_voters@.len() as int,
            q.old_threshold as int,
        ) ==> !q.cancelled,
{
}

/// A delete proposal is carried out only when its votes for alone reach the votes the
/// wallet's threshold asks for, and the votes against change nothing about whether or how
/// its execution is refused.
pub proof fn law_delete_needs_votes_for(
    p: DeleteProposal,
    w: TeamWallet,
    executor: Pubkey,
    program_account: Pubkey,
    program_data: Pubkey,
    spill_account: Pubkey,
    now: i64,
    against: u8,
)
    ensures
        execute_delete_error(p, w, executor, program_account, program_data, spill_account, now) is None
            ==> p.votes_for >= w.votes_required() && !p.executed && !p.cancelled && now <= p.expires_at,
        execute_delete_error(DeleteProposal { votes_against: against, ..p }, w, executor, program_account, program_data, spill_account, now)
            == execute_delete_error(p, w, executor, program_account, program_data, spill_account, now),
{
}

/// An upgrade proposal is carried out only when its votes for alone reach the votes the
/// wallet's threshold asks for, and the votes against change nothing about whether or how
/// its execution is refused.
pub proof fn law_upgrade_needs_votes_for(
    p: UpgradeProposal,
    w: TeamWallet,
    program_id: Pubkey,
    program_data: Pubkey,
    buffer: Pubkey,
    spill_account: Pubkey,
    against: u8,
)
    ensures
        execute_upgrade_error(p, w, program_id, program_data, buffer, spill_account) is None
            ==> p.votes_for >= w.votes_required() && !p.executed,
        execute_upgrade_error(UpgradeProposal { votes_against: against, ..p }, w, program_id, program_data, buffer, spill_account)
            == execute_upgrade_error(p, w, program_id, program_data, buffer, spill_account),
{
}

/// A token proposal passes the checks before its action only when it is open and
/// unexpired and its votes for alone reach the votes the wallet's threshold asks for; the
/// votes against change nothing about those checks.
pub proof fn law_token_execution_needs_votes_for(p: TokenProposal, w: TeamWallet, now: i64, against: u8)
    ensures
        execute_token_check_error(p, w, now) is None
            ==> p.votes_for >= w.votes_required() && !p.executed && !p.cancelled && now <= p.expires_at,
        execute_token_check_error(TokenProposal { votes_against: against, ..p }, w, now)
            == execute_token_check_error(p, w, now),
{
}

/// Votes against never count toward executing a general proposal either: they change
/// nothing about whether or how its execution is refused before its action.
pub proof fn law_execution_ignores_votes_against(p: Proposal, w: TeamWallet, now: i64, against: u8)
    ensures
        execute_check_error(p, w, now) is None ==> p.votes_for >= w.votes_required(),
        execute_check_error(Proposal { votes_against: against, ..p }, w, now) == execute_check_error(p, w, now),
{
}

/// A threshold proposal changes the threshold only while open, when its votes for alone
/// reach the votes the old threshold asks of the snapshot, and only to a percentage from 1 to
/// 100; the votes against change nothing about whether it may.
pub proof fn law_threshold_execution_needs_votes_for(p: ThresholdProposal, against: u8)
    ensures
        execute_threshold_error(p) is None ==> !p.executed && !p.cancelled && p.votes_for >= votes_required(
            p.snapshot_voters@.len() as int,
            p.old_threshold as int,
        ) && 1 <= p.new_threshold <= 100,
        execute_threshold_error(ThresholdProposal { votes_against: against, ..p }) == execute_threshold_error(p),
{
}

/// A swap intent runs only when it is open and approved, within its window, on the intent's
/// mints, from an input account of the team wallet that holds the amount.
pub proof fn law_swap_intent_runs_only_when_approved(
    i: SwapIntent,
    team_wallet_key: Pubkey,
    input: TokenAccountState,
    output: TokenAccountState,
    remaining: Seq<AccountRef>,
    now: i64,
)
    ensures
        execute_swap_intent_error(i, team_wallet_key, input, output, remaining, now) is None ==> {
            &&& !i.executed && !i.cancelled && i.approved
            &&& now <= i.deadline()
            &&& input.mint == i.input_mint && output.mint == i.output_mint
            &&& input.owner == team_wallet_key && input.amount >= i.amount_in
        },
{
}

/// A swap proposal is marked executed only once ready and when the output account holds at
/// least the minimum output; a smaller balance is always refused.
pub proof fn law_swap_proposal_needs_minimum_output(p: SwapProposalState, output_balance: u64)
    ensures
        execute_swap_proposal_error(p, output_balance) is None ==> p.is_swap_proposal && !p.executed
            && p.ready_to_execute && output_balance >= p.min_output_amount.unwrap(),
{
}

/// An accepted vote on a swap intent approves it exactly when its votes for reach the votes
/// the wallet's threshold asks for, and counts the vote on one side only.
pub proof fn law_swap_intent_approved_at_threshold(
    i: SwapIntent,
    j: SwapIntent,
    w: TeamWallet,
    voter: Pubkey,
    vote_for: bool,
    now: i64,
)
    requires
        vote_swap_intent_outcome(i, j, w, voter, vote_for, now, Ok(())),
    ensures
        !i.approved ==> (j.approved <==> j.votes_for >= w.votes_required()),
        j.votes_for + j.votes_against == i.votes_for + i.votes_against + 1,
        vote_for ==> j.votes_for == i.votes_for + 1 && j.votes_against == i.votes_against,
        !vote_for ==> j.votes_for == i.votes_for && j.votes_against == i.votes_against + 1,
{
}

} // verus!
