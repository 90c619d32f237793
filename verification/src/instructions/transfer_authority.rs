//! Handing a program's upgrade authority to the team wallet.

use vstd::prelude::*;
use crate::cpi::InstructionPlan;
use crate::errors::TeamWalletError;
use crate::pubkey::Pubkey;
use crate::solana::{
    bpf_loader_upgradeable_bytes, bpf_loader_upgradeable_id, is_set_upgrade_authority_instruction, program_address,
    set_upgrade_authority_instruction, try_find_program_address,
};

verus! {

/// Builds the loader's instruction that moves the upgrade authority of `program_id` from
/// `current_authority`, who signs it, to the team wallet. Refused when no program data
/// address can be derived for the program.
pub fn transfer_program_authority(
    program_id: Pubkey,
    current_authority: Pubkey,
    team_wallet_key: Pubkey,
) -> (r: Result<InstructionPlan, TeamWalletError>)
    ensures
        match r {
            Ok(ix) => program_address(program_id.bytes@, bpf_loader_upgradeable_bytes()) is Some
                && is_set_upgrade_authority_instruction(ix, program_id, current_authority, team_wallet_key),
            Err(e) => program_address(program_id.bytes@, bpf_loader_upgradeable_bytes()) is None
                && e == TeamWalletError::InvalidProgramData,
        },
{
    if try_find_program_address(&program_id, &bpf_loader_upgradeable_id()).is_none() {
        return Err(TeamWalletError::InvalidProgramData);
    }
    Ok(set_upgrade_authority_instruction(&program_id, &current_authority, &team_wallet_key))
}

} // verus!
