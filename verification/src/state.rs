//! The accounts that the wallet keeps.

pub mod team_wallet;
pub mod proposal;
pub mod threshold_proposal;
pub mod delete_proposal;
pub mod upgrade_proposal;
pub mod token_proposal;
pub mod swap_intent;
pub mod swap_proposal;
