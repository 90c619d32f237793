//! Verified core of a democratic multi-signature team wallet.

pub mod pubkey;
pub mod errors;
pub mod state;
pub mod instructions;
pub mod cpi;
pub mod solana;
pub mod laws;
