//! The wallet's instructions: each checks its request against the accounts
//! and either refuses it, leaving every account as it was, or applies it.

pub mod initialize_team_wallet;
pub mod add_voter;
pub mod remove_voter;
pub mod add_contributor;
pub mod remove_contributor;
pub mod set_threshold;
pub mod create_proposal;
pub mod vote_proposal;
pub mod execute_proposal;
pub mod cancel_proposal;
pub mod threshold_proposal;
pub mod delete_program;
pub mod upgrade_program;
pub mod token_manager;
pub mod vote_token_proposal;
pub mod create_swap_intent;
pub mod vote_swap_intent;
pub mod execute_swap_intent;
pub mod cancel_swap_intent;
pub mod swap_proposal;
pub mod entry_points;
pub mod transfer_authority;
