//! Executing an approved proposal of any kind.

use vstd::prelude::*;
use crate::cpi::{AccountRef, AuthorityKind, InstructionPlan, MetadataField, OutsideCall, account_metas_from, swap_metas};
use crate::errors::TeamWalletError;
use crate::pubkey::{Pubkey, contains_key, key_eq, position};
use crate::solana::{
    bpf_loader_upgradeable_bytes, bpf_loader_upgradeable_id, borsh_string_fits, is_update_field, is_upgrade_instruction, program_address,
    try_find_program_address, update_field_instruction, upgrade_instruction,
};
use crate::state::proposal::{Proposal, ProposalAction};
use crate::state::team_wallet::TeamWallet;
use crate::instructions::add_voter::{add_voter_error, voter_added};
use crate::instructions::add_contributor::contributor_added;
use crate::instructions::remove_contributor::{contributor_removed, remove_contributor_error};
use crate::pubkey::{without, lemma_without_no_dup};

verus! {

broadcast use vstd::seq_lib::group_seq_properties;

// ---------------------------------------------------------------------------------------------
// Checks of the accounts passed along, one per kind of outside call
// ---------------------------------------------------------------------------------------------

/// Why a SOL transfer is refused: the recipient must be the first passed account and the
/// wallet must hold the amount.
pub open spec fn transfer_sol_error(lamports: u64, remaining: Seq<AccountRef>, amount: u64, recipient: Pubkey) -> Option<TeamWalletError> {
    if remaining.len() < 1 {
        Some(TeamWalletError::InvalidRemainingAccounts)
    } else if remaining[0].key != recipient {
        Some(TeamWalletError::InvalidData)
    } else if lamports < amount {
        Some(TeamWalletError::InsufficientBalance)
    } else {
        None
    }
}

/// Checks a SOL transfer of `amount` from a wallet holding `team_wallet_lamports`.
pub fn exec_transfer_sol(
    team_wallet_lamports: u64,
    remaining_accounts: &Vec<AccountRef>,
    amount: u64,
    recipient: Pubkey,
) -> (r: Result<OutsideCall, TeamWalletError>)
    ensures
        match r {
            Ok(call) => transfer_sol_error(team_wallet_lamports, remaining_accounts@, amount, recipient) is None
                && call == OutsideCall::MoveLamports { amount },
            Err(e) => transfer_sol_error(team_wallet_lamports, remaining_accounts@, amount, recipient) == Some(e),
        },
{
    if remaining_accounts.len() < 1 {
        return Err(TeamWalletError::InvalidRemainingAccounts);
    }
    if !key_eq(&remaining_accounts[0].key, &recipient) {
        return Err(TeamWalletError::InvalidData);
    }
    if team_wallet_lamports < amount {
        return Err(TeamWalletError::InsufficientBalance);
    }
    Ok(OutsideCall::MoveLamports { amount })
}

/// Why a call on a mint is refused: at least `needed` accounts, the first being the mint.
pub open spec fn mint_accounts_error(remaining: Seq<AccountRef>, needed: nat, mint: Pubkey) -> Option<TeamWalletError> {
    if remaining.len() < needed {
        Some(TeamWalletError::InvalidRemainingAccounts)
    } else if remaining[0].key != mint {
        Some(TeamWalletError::InvalidMint)
    } else {
        None
    }
}

/// Checks that at least `needed` accounts were passed, the first being `mint`.
pub fn check_mint_accounts(remaining_accounts: &Vec<AccountRef>, needed: usize, mint: &Pubkey) -> (r: Result<(), TeamWalletError>)
    requires
        needed >= 1,
    ensures
        match r {
            Ok(()) => mint_accounts_error(remaining_accounts@, needed as nat, *mint) is None,
            Err(e) => mint_accounts_error(remaining_accounts@, needed as nat, *mint) == Some(e),
        },
{
    if remaining_accounts.len() < needed {
        return Err(TeamWalletError::InvalidRemainingAccounts);
    }
    if !key_eq(&remaining_accounts[0].key, mint) {
        return Err(TeamWalletError::InvalidMint);
    }
    Ok(())
}

/// Why a token transfer is refused: mint, source, destination and token program are passed,
/// the mint first, and the destination must be the recipient the proposal names.
pub open spec fn transfer_token_error(remaining: Seq<AccountRef>, mint: Pubkey, recipient: Pubkey) -> Option<TeamWalletError> {
    if mint_accounts_error(remaining, 4, mint) is Some {
        mint_accounts_error(remaining, 4, mint)
    } else if remaining[2].key != recipient {
        Some(TeamWalletError::InvalidData)
    } else {
        None
    }
}

/// Checks a token transfer of `amount` of `mint` to `recipient`: the transfer goes from the
/// second passed account to the third, the recipient, through the fourth, the token
/// program, under the team wallet.
pub fn exec_transfer_token(
    remaining_accounts: &Vec<AccountRef>,
    team_wallet_key: Pubkey,
    amount: u64,
    recipient: Pubkey,
    mint: Pubkey,
) -> (r: Result<OutsideCall, TeamWalletError>)
    ensures
        match r {
            Ok(call) => transfer_token_error(remaining_accounts@, mint, recipient) is None
                && call == (OutsideCall::TransferChecked {
                    program: remaining_accounts@[3].key,
                    mint,
                    from: remaining_accounts@[1].key,
                    to: recipient,
                    authority: team_wallet_key,
                    amount,
                }),
            Err(e) => transfer_token_error(remaining_accounts@, mint, recipient) == Some(e),
        },
{
    check_mint_accounts(remaining_accounts, 4, &mint)?;
    if !key_eq(&remaining_accounts[2].key, &recipient) {
        return Err(TeamWalletError::InvalidData);
    }
    Ok(OutsideCall::TransferChecked {
        program: remaining_accounts[3].key,
        mint,
        from: remaining_accounts[1].key,
        to: recipient,
        authority: team_wallet_key,
        amount,
    })
}

/// Why a swap is refused: the swap program, the output account and the swap's accounts are passed.
pub open spec fn swap_error(remaining: Seq<AccountRef>) -> Option<TeamWalletError> {
    if remaining.len() < 3 {
        Some(TeamWalletError::InvalidRemainingAccounts)
    } else {
        None
    }
}

/// What a swap call holds: the first passed account is the program, the accounts from the
/// third on are named, the team wallet signing, and the data is passed through.
pub open spec fn is_swap_call(call: OutsideCall, remaining: Seq<AccountRef>, team_wallet_key: Pubkey, data: Seq<u8>, min_amount_out: u64) -> bool {
    &&& call matches OutsideCall::Swap { instruction, min_amount_out: m }
    &&& m == min_amount_out
    &&& instruction.program_id == remaining[0].key
    &&& instruction.accounts@ == swap_metas(remaining, 2, team_wallet_key)
    &&& instruction.data@ == data
}

/// Plans a swap through the program passed first, with the accounts from the third on.
pub fn exec_swap(
    remaining_accounts: &Vec<AccountRef>,
    team_wallet_key: &Pubkey,
    swap_data: Vec<u8>,
    min_amount_out: u64,
) -> (r: Result<OutsideCall, TeamWalletError>)
    ensures
        match r {
            Ok(call) => swap_error(remaining_accounts@) is None && is_swap_call(
                call,
                remaining_accounts@,
                *team_wallet_key,
                swap_data@,
                min_amount_out,
            ),
            Err(e) => swap_error(remaining_accounts@) == Some(e),
        },
{
    if remaining_accounts.len() < 3 {
        return Err(TeamWalletError::InvalidRemainingAccounts);
    }
    let accounts = account_metas_from(remaining_accounts, 2, team_wallet_key);
    let instruction = InstructionPlan {
        program_id: remaining_accounts[0].key,
        accounts,
        data: swap_data,
    };
    Ok(OutsideCall::Swap { instruction, min_amount_out })
}

/// Why a program upgrade is refused: seven accounts, the program first, the buffer third,
/// the spill account fourth.
pub open spec fn upgrade_program_error(remaining: Seq<AccountRef>, program_id: Pubkey, buffer: Pubkey, spill: Pubkey) -> Option<TeamWalletError> {
    if remaining.len() < 7 {
        Some(TeamWalletError::InvalidRemainingAccounts)
    } else if remaining[0].key != program_id {
        Some(TeamWalletError::InvalidProgramData)
    } else if remaining[2].key != buffer {
        Some(TeamWalletError::InvalidUpgradeBuffer)
    } else if remaining[3].key != spill {
        Some(TeamWalletError::InvalidData)
    } else if program_address(program_id.bytes@, bpf_loader_upgradeable_bytes()) is None {
        Some(TeamWalletError::InvalidProgramData)
    } else {
        None
    }
}

/// Checks a program upgrade, which the team wallet authorizes.
/// Whether `call` invokes the loader's upgrade of `program_id` from `buffer` under `authority`,
/// refunding to `spill`.
pub open spec fn is_upgrade_call(call: OutsideCall, program_id: Pubkey, buffer: Pubkey, authority: Pubkey, spill: Pubkey) -> bool {
    call matches OutsideCall::Invoke { instruction } && is_upgrade_instruction(instruction, program_id, buffer, authority, spill)
}

pub fn exec_upgrade_program(
    remaining_accounts: &Vec<AccountRef>,
    team_wallet_key: Pubkey,
    program_id: Pubkey,
    buffer: Pubkey,
    spill: Pubkey,
) -> (r: Result<OutsideCall, TeamWalletError>)
    ensures
        match r {
            Ok(call) => upgrade_program_error(remaining_accounts@, program_id, buffer, spill) is None
                && is_upgrade_call(call, program_id, buffer, team_wallet_key, spill),
            Err(e) => upgrade_program_error(remaining_accounts@, program_id, buffer, spill) == Some(e),
        },
{
    if remaining_accounts.len() < 7 {
        return Err(TeamWalletError::InvalidRemainingAccounts);
    }
    if !key_eq(&remaining_accounts[0].key, &program_id) {
        return Err(TeamWalletError::InvalidProgramData);
    }
    if !key_eq(&remaining_accounts[2].key, &buffer) {
        return Err(TeamWalletError::InvalidUpgradeBuffer);
    }
    if !key_eq(&remaining_accounts[3].key, &spill) {
        return Err(TeamWalletError::InvalidData);
    }
    if try_find_program_address(&program_id, &bpf_loader_upgradeable_id()).is_none() {
        return Err(TeamWalletError::InvalidProgramData);
    }
    let instruction = upgrade_instruction(&program_id, &buffer, &team_wallet_key, &spill);
    Ok(OutsideCall::Invoke { instruction })
}

/// The loader's `Close` instruction: program data, spill and program are written, the
/// authority signs, and the data is the instruction's number, five, as four little-endian bytes.
pub open spec fn is_close_program_instruction(ix: InstructionPlan, program_data: Pubkey, spill: Pubkey, authority: Pubkey, program: Pubkey) -> bool {
    &&& ix.program_id.bytes@ == bpf_loader_upgradeable_bytes()
    &&& ix.accounts@ == seq![
        AccountRef { key: program_data, is_signer: false, is_writable: true },
        AccountRef { key: spill, is_signer: false, is_writable: true },
        AccountRef { key: authority, is_signer: true, is_writable: false },
        AccountRef { key: program, is_signer: false, is_writable: true },
    ]
    &&& ix.data@ == seq![5u8, 0u8, 0u8, 0u8]
}

/// Builds the loader's instruction that closes `program`, sending its lamports to `spill`.
pub fn close_program_instruction(program_data: Pubkey, spill: Pubkey, authority: Pubkey, program: Pubkey) -> (r: InstructionPlan)
    ensures
        is_close_program_instruction(r, program_data, spill, authority, program),
{
    let mut accounts: Vec<AccountRef> = Vec::new();
    accounts.push(AccountRef { key: program_data, is_signer: false, is_writable: true });
    accounts.push(AccountRef { key: spill, is_signer: false, is_writable: true });
    accounts.push(AccountRef { key: authority, is_signer: true, is_writable: false });
    accounts.push(AccountRef { key: program, is_signer: false, is_writable: true });
    let mut data: Vec<u8> = Vec::new();
    data.push(5);
    data.push(0);
    data.push(0);
    data.push(0);
    let r = InstructionPlan { program_id: bpf_loader_upgradeable_id(), accounts, data };
    assert(r.accounts@ =~= seq![
        AccountRef { key: program_data, is_signer: false, is_writable: true },
        AccountRef { key: spill, is_signer: false, is_writable: true },
        AccountRef { key: authority, is_signer: true, is_writable: false },
        AccountRef { key: program, is_signer: false, is_writable: true },
    ]);
    assert(r.data@ =~= seq![5u8, 0u8, 0u8, 0u8]);
    r
}

/// Why deleting a program is refused: four accounts, the program first, the spill third.
pub open spec fn delete_program_error(remaining: Seq<AccountRef>, program_id: Pubkey, spill: Pubkey) -> Option<TeamWalletError> {
    if remaining.len() < 4 {
        Some(TeamWalletError::InvalidRemainingAccounts)
    } else if remaining[0].key != program_id {
        Some(TeamWalletError::InvalidProgramData)
    } else if remaining[2].key != spill {
        Some(TeamWalletError::InvalidData)
    } else {
        None
    }
}

/// Whether `call` closes the first passed account, whose data is the second, refunding the third.
pub open spec fn is_delete_call(call: OutsideCall, remaining: Seq<AccountRef>, team_wallet_key: Pubkey) -> bool {
    &&& call matches OutsideCall::Invoke { instruction }
    &&& is_close_program_instruction(instruction, remaining[1].key, remaining[2].key, team_wallet_key, remaining[0].key)
}

/// Plans closing a program: program, program data, spill and loader are passed in that order.
pub fn exec_delete_program(
    remaining_accounts: &Vec<AccountRef>,
    team_wallet_key: Pubkey,
    program_id: Pubkey,
    spill: Pubkey,
) -> (r: Result<OutsideCall, TeamWalletError>)
    ensures
        match r {
            Ok(call) => delete_program_error(remaining_accounts@, program_id, spill) is None
                && is_delete_call(call, remaining_accounts@, team_wallet_key),
            Err(e) => delete_program_error(remaining_accounts@, program_id, spill) == Some(e),
        },
{
    if remaining_accounts.len() < 4 {
        return Err(TeamWalletError::InvalidRemainingAccounts);
    }
    if !key_eq(&remaining_accounts[0].key, &program_id) {
        return Err(TeamWalletError::InvalidProgramData);
    }
    if !key_eq(&remaining_accounts[2].key, &spill) {
        return Err(TeamWalletError::InvalidData);
    }
    let instruction = close_program_instruction(
        remaining_accounts[1].key,
        remaining_accounts[2].key,
        team_wallet_key,
        remaining_accounts[0].key,
    );
    Ok(OutsideCall::Invoke { instruction })
}

/// Why minting to `recipient` is refused: mint, token account and token program are passed,
/// the mint first, and the token account must be the recipient the proposal names.
pub open spec fn token_mint_error(remaining: Seq<AccountRef>, mint: Pubkey, recipient: Pubkey) -> Option<TeamWalletError> {
    if mint_accounts_error(remaining, 3, mint) is Some {
        mint_accounts_error(remaining, 3, mint)
    } else if remaining[1].key != recipient {
        Some(TeamWalletError::InvalidData)
    } else {
        None
    }
}

/// Checks minting `amount` of `mint` to `recipient`, the second passed account, through the
/// third, the token program, under the team wallet.
pub fn exec_token_mint(
    remaining_accounts: &Vec<AccountRef>,
    team_wallet_key: Pubkey,
    mint: Pubkey,
    amount: u64,
    recipient: Pubkey,
) -> (r: Result<OutsideCall, TeamWalletError>)
    ensures
        match r {
            Ok(call) => token_mint_error(remaining_accounts@, mint, recipient) is None
                && call == (OutsideCall::MintTo {
                    program: remaining_accounts@[2].key,
                    mint,
                    account: recipient,
                    authority: team_wallet_key,
                    amount,
                }),
            Err(e) => token_mint_error(remaining_accounts@, mint, recipient) == Some(e),
        },
{
    check_mint_accounts(remaining_accounts, 3, &mint)?;
    if !key_eq(&remaining_accounts[1].key, &recipient) {
        return Err(TeamWalletError::InvalidData);
    }
    Ok(OutsideCall::MintTo {
        program: remaining_accounts[2].key,
        mint,
        account: recipient,
        authority: team_wallet_key,
        amount,
    })
}

/// Checks burning `amount` of `mint` from the second passed account, through the third,
/// the token program, under the team wallet.
pub fn exec_token_burn(remaining_accounts: &Vec<AccountRef>, team_wallet_key: Pubkey, mint: Pubkey, amount: u64) -> (r: Result<OutsideCall, TeamWalletError>)
    ensures
        match r {
            Ok(call) => mint_accounts_error(remaining_accounts@, 3, mint) is None
                && call == (OutsideCall::Burn {
                    program: remaining_accounts@[2].key,
                    mint,
                    account: remaining_accounts@[1].key,
                    authority: team_wallet_key,
                    amount,
                }),
            Err(e) => mint_accounts_error(remaining_accounts@, 3, mint) == Some(e),
        },
{
    check_mint_accounts(remaining_accounts, 3, &mint)?;
    Ok(OutsideCall::Burn {
        program: remaining_accounts[2].key,
        mint,
        account: remaining_accounts[1].key,
        authority: team_wallet_key,
        amount,
    })
}

/// Why freezing or thawing `account` is refused: mint first, the account second.
pub open spec fn token_account_error(remaining: Seq<AccountRef>, mint: Pubkey, account: Pubkey) -> Option<TeamWalletError> {
    if mint_accounts_error(remaining, 3, mint) is Some {
        mint_accounts_error(remaining, 3, mint)
    } else if remaining[1].key != account {
        Some(TeamWalletError::InvalidData)
    } else {
        None
    }
}

/// Checks freezing `account` of `mint`, through the third passed account, the token
/// program, under the team wallet.
pub fn exec_token_freeze(remaining_accounts: &Vec<AccountRef>, team_wallet_key: Pubkey, mint: Pubkey, account: Pubkey) -> (r: Result<OutsideCall, TeamWalletError>)
    ensures
        match r {
            Ok(call) => token_account_error(remaining_accounts@, mint, account) is None
                && call == (OutsideCall::FreezeAccount { program: remaining_accounts@[2].key, mint, account, authority: team_wallet_key }),
            Err(e) => token_account_error(remaining_accounts@, mint, account) == Some(e),
        },
{
    check_mint_accounts(remaining_accounts, 3, &mint)?;
    if !key_eq(&remaining_accounts[1].key, &account) {
        return Err(TeamWalletError::InvalidData);
    }
    Ok(OutsideCall::FreezeAccount { program: remaining_accounts[2].key, mint, account, authority: team_wallet_key })
}

/// Checks thawing `account` of `mint`, through the third passed account, the token
/// program, under the team wallet.
pub fn exec_token_thaw(remaining_accounts: &Vec<AccountRef>, team_wallet_key: Pubkey, mint: Pubkey, account: Pubkey) -> (r: Result<OutsideCall, TeamWalletError>)
    ensures
        match r {
            Ok(call) => token_account_error(remaining_accounts@, mint, account) is None
                && call == (OutsideCall::ThawAccount { program: remaining_accounts@[2].key, mint, account, authority: team_wallet_key }),
            Err(e) => token_account_error(remaining_accounts@, mint, account) == Some(e),
        },
{
    check_mint_accounts(remaining_accounts, 3, &mint)?;
    if !key_eq(&remaining_accounts[1].key, &account) {
        return Err(TeamWalletError::InvalidData);
    }
    Ok(OutsideCall::ThawAccount { program: remaining_accounts[2].key, mint, account, authority: team_wallet_key })
}

/// Checks handing the `kind` authority of `mint`, held by the team wallet, to
/// `new_authority` (none: no one), through the second passed account, the token program.
pub fn exec_set_authority(
    remaining_accounts: &Vec<AccountRef>,
    team_wallet_key: Pubkey,
    mint: Pubkey,
    kind: AuthorityKind,
    new_authority: Option<Pubkey>,
) -> (r: Result<OutsideCall, TeamWalletError>)
    ensures
        match r {
            Ok(call) => mint_accounts_error(remaining_accounts@, 2, mint) is None
                && call == (OutsideCall::SetAuthority {
                    program: remaining_accounts@[1].key,
                    mint,
                    authority: team_wallet_key,
                    kind,
                    new_authority,
                }),
            Err(e) => mint_accounts_error(remaining_accounts@, 2, mint) == Some(e),
        },
{
    check_mint_accounts(remaining_accounts, 2, &mint)?;
    Ok(OutsideCall::SetAuthority { program: remaining_accounts[1].key, mint, authority: team_wallet_key, kind, new_authority })
}

/// Whether `call` runs, in order, the token program's instructions that set the name, symbol
/// and uri of the metadata held by `mint` to these, signed by `authority`.
pub open spec fn is_metadata_call(
    call: OutsideCall,
    token_program: Pubkey,
    mint: Pubkey,
    authority: Pubkey,
    name: Seq<char>,
    symbol: Seq<char>,
    uri: Seq<char>,
) -> bool {
    &&& call matches OutsideCall::UpdateMetadata { name: n, symbol: s, uri: u }
    &&& is_update_field(n, token_program, mint, authority, MetadataField::Name, name)
    &&& is_update_field(s, token_program, mint, authority, MetadataField::Symbol, symbol)
    &&& is_update_field(u, token_program, mint, authority, MetadataField::Uri, uri)
}

/// Whether the three values can be encoded into the metadata updates.
pub open spec fn metadata_fits(name: Seq<char>, symbol: Seq<char>, uri: Seq<char>) -> bool {
    borsh_string_fits(name) && borsh_string_fits(symbol) && borsh_string_fits(uri)
}

/// Whether `value`'s UTF-8 bytes can be counted by a `u32`.
fn fits_borsh(value: &String) -> (r: bool)
    ensures
        r == borsh_string_fits(value@),
{
    let bytes = value.as_str().as_bytes();
    bytes.len() as u64 <= 0xFFFF_FFFFu64
}

/// The instructions that set the name, symbol and uri of the metadata held by `mint`, to the
/// token program `token_program`, signed by `authority`; none when a value has more UTF-8
/// bytes than a `u32` counts.
pub fn metadata_updates(token_program: Pubkey, mint: Pubkey, authority: Pubkey, name: String, symbol: String, uri: String) -> (r: Option<OutsideCall>)
    ensures
        r is Some <==> metadata_fits(name@, symbol@, uri@),
        r matches Some(call) ==> is_metadata_call(call, token_program, mint, authority, name@, symbol@, uri@),
{
    if !(fits_borsh(&name) && fits_borsh(&symbol) && fits_borsh(&uri)) {
        return None;
    }
    let name_update = update_field_instruction(&token_program, &mint, &authority, MetadataField::Name, name);
    let symbol_update = update_field_instruction(&token_program, &mint, &authority, MetadataField::Symbol, symbol);
    let uri_update = update_field_instruction(&token_program, &mint, &authority, MetadataField::Uri, uri);
    Some(OutsideCall::UpdateMetadata { name: name_update, symbol: symbol_update, uri: uri_update })
}

/// Why updating the metadata of `mint` is refused: mint and token program are passed, the mint
/// first, and each value can be encoded.
pub open spec fn metadata_error(remaining: Seq<AccountRef>, mint: Pubkey, name: Seq<char>, symbol: Seq<char>, uri: Seq<char>) -> Option<TeamWalletError> {
    if mint_accounts_error(remaining, 2, mint) is Some {
        mint_accounts_error(remaining, 2, mint)
    } else if !metadata_fits(name, symbol, uri) {
        Some(TeamWalletError::InvalidData)
    } else {
        None
    }
}

/// Checks updating the metadata of `mint`: mint and token program are passed. The update
/// goes to the second passed account, the token program, signed by the team wallet.
pub fn exec_update_metadata(
    remaining_accounts: &Vec<AccountRef>,
    team_wallet_key: Pubkey,
    mint: Pubkey,
    name: String,
    symbol: String,
    uri: String,
) -> (r: Result<OutsideCall, TeamWalletError>)
    ensures
        match r {
            Ok(call) => metadata_error(remaining_accounts@, mint, name@, symbol@, uri@) is None
                && is_metadata_call(call, remaining_accounts@[1].key, mint, team_wallet_key, name@, symbol@, uri@),
            Err(e) => metadata_error(remaining_accounts@, mint, name@, symbol@, uri@) == Some(e),
        },
{
    check_mint_accounts(remaining_accounts, 2, &mint)?;
    match metadata_updates(remaining_accounts[1].key, mint, team_wallet_key, name, symbol, uri) {
        Some(call) => Ok(call),
        None => Err(TeamWalletError::InvalidData),
    }
}

// ---------------------------------------------------------------------------------------------
// Changes to the team wallet's members
// ---------------------------------------------------------------------------------------------

/// Appends `voter` to the voters, as an approved proposal does.
pub fn exec_add_voter(team_wallet: &mut TeamWallet, voter: Pubkey) -> (r: Result<(), TeamWalletError>)
    requires
        old(team_wallet).wf(),
    ensures
        match r {
            Err(e) => add_voter_error(*old(team_wallet), voter) == Some(e)
                && *final(team_wallet) == *old(team_wallet),
            Ok(()) => add_voter_error(*old(team_wallet), voter) is None
                && voter_added(*old(team_wallet), *final(team_wallet), voter),
        },
        final(team_wallet).wf(),
{
    if team_wallet.voters.len() >= TeamWallet::MAX_VOTERS {
        return Err(TeamWalletError::MaxVotersReached);
    }
    if contains_key(&team_wallet.voters, &voter) {
        return Err(TeamWalletError::VoterAlreadyExists);
    }
    let ghost prev = team_wallet.voters@;
    team_wallet.voters.push(voter);
    team_wallet.voter_count = team_wallet.voters.len() as u8;
    proof {
        let s = team_wallet.voters@;
        assert forall|a: int, b: int| 0 <= a < s.len() && 0 <= b < s.len() && a != b implies s[a]
            != s[b] by {
            if a == prev.len() {
                assert(s[b] == prev[b]);
            } else if b == prev.len() {
                assert(s[a] == prev[a]);
            } else {
                assert(s[a] == prev[a] && s[b] == prev[b]);
            }
        }
    }
    Ok(())
}

/// Why removing `voter` by proposal is refused, checked in this order.
pub open spec fn exec_remove_voter_error(w: TeamWallet, voter: Pubkey) -> Option<TeamWalletError> {
    if voter == w.owner {
        Some(TeamWalletError::CannotRemoveOwner)
    } else if !w.voters@.contains(voter) {
        Some(TeamWalletError::VoterNotFound)
    } else {
        None
    }
}

/// The wallet after `voter` was taken out by proposal: the threshold, a percentage, stays.
pub open spec fn voter_removed_by_proposal(old: TeamWallet, new: TeamWallet, voter: Pubkey) -> bool {
    &&& new.voters@ == without(old.voters@, voter)
    &&& new.voters@.len() == old.voters@.len() - 1
    &&& new.voter_count as int == new.voters@.len()
    &&& new.vote_threshold == old.vote_threshold
    &&& new.contributors@ == old.contributors@
    &&& new.owner == old.owner
    &&& new.name@ == old.name@
    &&& new.proposal_count == old.proposal_count
    &&& new.bump == old.bump
}

/// Takes `voter` out of the voters, as an approved proposal does.
pub fn exec_remove_voter(team_wallet: &mut TeamWallet, voter: Pubkey) -> (r: Result<(), TeamWalletError>)
    requires
        old(team_wallet).wf(),
    ensures
        match r {
            Err(e) => exec_remove_voter_error(*old(team_wallet), voter) == Some(e)
                && *final(team_wallet) == *old(team_wallet),
            Ok(()) => exec_remove_voter_error(*old(team_wallet), voter) is None
                && voter_removed_by_proposal(*old(team_wallet), *final(team_wallet), voter),
        },
        final(team_wallet).wf(),
{
    if key_eq(&voter, &team_wallet.owner) {
        return Err(TeamWalletError::CannotRemoveOwner);
    }
    let pos = match position(&team_wallet.voters, &voter) {
        Some(i) => i,
        None => {
            return Err(TeamWalletError::VoterNotFound);
        },
    };
    let ghost prev = team_wallet.voters@;
    proof {
        lemma_without_no_dup(prev, voter);
        assert(pos != 0);
    }
    team_wallet.voters.remove(pos);
    team_wallet.voter_count = team_wallet.voters.len() as u8;
    proof {
        assert(team_wallet.voters@ =~= without(prev, voter));
        assert(team_wallet.voters@[0] == prev[0]);
    }
    Ok(())
}

/// Why adding `contributor` by proposal is refused, checked in this order.
pub open spec fn exec_add_contributor_error(w: TeamWallet, contributor: Pubkey) -> Option<TeamWalletError> {
    if w.contributors@.len() >= TeamWallet::MAX_CONTRIBUTORS {
        Some(TeamWalletError::MaxContributorsReached)
    } else if w.contributors@.contains(contributor) {
        Some(TeamWalletError::ContributorAlreadyExists)
    } else {
        None
    }
}

/// Appends `contributor` to the contributors, as an approved proposal does.
pub fn exec_add_contributor(team_wallet: &mut TeamWallet, contributor: Pubkey) -> (r: Result<(), TeamWalletError>)
    requires
        old(team_wallet).wf(),
    ensures
        match r {
            Err(e) => exec_add_contributor_error(*old(team_wallet), contributor) == Some(e)
                && *final(team_wallet) == *old(team_wallet),
            Ok(()) => exec_add_contributor_error(*old(team_wallet), contributor) is None
                && contributor_added(*old(team_wallet), *final(team_wallet), contributor),
        },
        final(team_wallet).wf(),
{
    if team_wallet.contributors.len() >= TeamWallet::MAX_CONTRIBUTORS {
        return Err(TeamWalletError::MaxContributorsReached);
    }
    if contains_key(&team_wallet.contributors, &contributor) {
        return Err(TeamWalletError::ContributorAlreadyExists);
    }
    let ghost prev = team_wallet.contributors@;
    team_wallet.contributors.push(contributor);
    proof {
        let s = team_wallet.contributors@;
        assert forall|a: int, b: int| 0 <= a < s.len() && 0 <= b < s.len() && a != b implies s[a]
            != s[b] by {
            if a == prev.len() {
                assert(s[b] == prev[b]);
            } else if b == prev.len() {
                assert(s[a] == prev[a]);
            } else {
                assert(s[a] == prev[a] && s[b] == prev[b]);
            }
        }
    }
    Ok(())
}

/// Takes `contributor` out of the contributors, as an approved proposal does.
pub fn exec_remove_contributor(team_wallet: &mut TeamWallet, contributor: Pubkey) -> (r: Result<(), TeamWalletError>)
    requires
        old(team_wallet).wf(),
    ensures
        match r {
            Err(e) => remove_contributor_error(*old(team_wallet), contributor) == Some(e)
                && *final(team_wallet) == *old(team_wallet),
            Ok(()) => remove_contributor_error(*old(team_wallet), contributor) is None
                && contributor_removed(*old(team_wallet), *final(team_wallet), contributor),
        },
        final(team_wallet).wf(),
{
    let pos = match position(&team_wallet.contributors, &contributor) {
        Some(i) => i,
        None => {
            return Err(TeamWalletError::ContributorNotFound);
        },
    };
    let ghost prev = team_wallet.contributors@;
    proof {
        lemma_without_no_dup(prev, contributor);
    }
    team_wallet.contributors.remove(pos);
    proof {
        assert(team_wallet.contributors@ =~= without(prev, contributor));
    }
    Ok(())
}

// ---------------------------------------------------------------------------------------------
// Executing a proposal
// ---------------------------------------------------------------------------------------------

/// Why a proposal may not be executed at `now`, checked in this order. The votes for are
/// held against the votes the wallet's current threshold asks for; a swap must also be approved and within
/// its window.
pub open spec fn execute_check_error(p: Proposal, w: TeamWallet, now: i64) -> Option<TeamWalletError> {
    if p.executed {
        Some(TeamWalletError::ProposalAlreadyExecuted)
    } else if p.cancelled {
        Some(TeamWalletError::ProposalAlreadyCancelled)
    } else if now > p.expires_at {
        Some(TeamWalletError::ProposalExpired)
    } else if p.votes_for < w.votes_required() {
        Some(TeamWalletError::InsufficientVotes)
    } else if p.action is Swap && !p.approved {
        Some(TeamWalletError::SwapNotApproved)
    } else if p.action is Swap && now > p.window_deadline() {
        Some(TeamWalletError::SwapExecutionWindowExpired)
    } else {
        None
    }
}

/// Why carrying out `action` is refused once the proposal itself may be executed.
pub open spec fn execute_action_error(
    action: ProposalAction,
    w: TeamWallet,
    lamports: u64,
    remaining: Seq<AccountRef>,
    has_swap_data: bool,
) -> Option<TeamWalletError> {
    match action {
        ProposalAction::TransferSol { amount, recipient } => transfer_sol_error(lamports, remaining, amount, recipient),
        ProposalAction::TransferToken { mint, recipient, .. } => transfer_token_error(remaining, mint, recipient),
        ProposalAction::Swap { .. } => if !has_swap_data {
            Some(TeamWalletError::InvalidData)
        } else {
            swap_error(remaining)
        },
        ProposalAction::ChangeThreshold { new_threshold } => if !(1 <= new_threshold <= 100) {
            Some(TeamWalletError::InvalidThreshold)
        } else {
            None
        },
        ProposalAction::AddVoter { voter } => add_voter_error(w, voter),
        ProposalAction::RemoveVoter { voter } => exec_remove_voter_error(w, voter),
        ProposalAction::AddContributor { contributor } => exec_add_contributor_error(w, contributor),
        ProposalAction::RemoveContributor { contributor } => remove_contributor_error(w, contributor),
        ProposalAction::UpgradeProgram { program_id, buffer, spill } => upgrade_program_error(remaining, program_id, buffer, spill),
        ProposalAction::DeleteProgram { program_id, spill } => delete_program_error(remaining, program_id, spill),
        ProposalAction::TokenMint { mint, recipient, .. } => token_mint_error(remaining, mint, recipient),
        ProposalAction::TokenBurn { mint, .. } => mint_accounts_error(remaining, 3, mint),
        ProposalAction::TokenFreeze { mint, account } => token_account_error(remaining, mint, account),
        ProposalAction::TokenThaw { mint, account } => token_account_error(remaining, mint, account),
        ProposalAction::TokenSetMintAuthority { mint, .. } => mint_accounts_error(remaining, 2, mint),
        ProposalAction::TokenSetFreezeAuthority { mint, .. } => mint_accounts_error(remaining, 2, mint),
        ProposalAction::TokenUpdateMetadata { mint, name, symbol, uri } => metadata_error(remaining, mint, name@, symbol@, uri@),
    }
}

/// What carrying out `action` did: the call asked of another program, and the wallet's
/// own changes for the governance actions (the others leave the wallet as it was).
pub open spec fn execute_action_done(
    action: ProposalAction,
    old: TeamWallet,
    new: TeamWallet,
    team_wallet_key: Pubkey,
    remaining: Seq<AccountRef>,
    swap_data: Seq<u8>,
    call: OutsideCall,
) -> bool {
    match action {
        ProposalAction::ChangeThreshold { new_threshold } => call == OutsideCall::Nothing
            && new.vote_threshold == new_threshold && new.same_but_threshold(&old),
        ProposalAction::AddVoter { voter } => call == OutsideCall::Nothing && voter_added(old, new, voter),
        ProposalAction::RemoveVoter { voter } => call == OutsideCall::Nothing && voter_removed_by_proposal(old, new, voter),
        ProposalAction::AddContributor { contributor } => call == OutsideCall::Nothing
            && contributor_added(old, new, contributor),
        ProposalAction::RemoveContributor { contributor } => call == OutsideCall::Nothing
            && contributor_removed(old, new, contributor),
        _ => new == old && match action {
            ProposalAction::TransferSol { amount, .. } => call == OutsideCall::MoveLamports { amount },
            ProposalAction::TransferToken { amount, recipient, mint } => call == (OutsideCall::TransferChecked {
                program: remaining[3].key,
                mint,
                from: remaining[1].key,
                to: recipient,
                authority: team_wallet_key,
                amount,
            }),
            ProposalAction::Swap { min_amount_out, .. } => is_swap_call(call, remaining, team_wallet_key, swap_data, min_amount_out),
            ProposalAction::UpgradeProgram { program_id, buffer, spill } => is_upgrade_call(
                call,
                program_id,
                buffer,
                team_wallet_key,
                spill,
            ),
            ProposalAction::DeleteProgram { .. } => is_delete_call(call, remaining, team_wallet_key),
            ProposalAction::TokenMint { mint, amount, recipient } => call == (OutsideCall::MintTo {
                program: remaining[2].key,
                mint,
                account: recipient,
                authority: team_wallet_key,
                amount,
            }),
            ProposalAction::TokenBurn { mint, amount } => call == (OutsideCall::Burn {
                program: remaining[2].key,
                mint,
                account: remaining[1].key,
                authority: team_wallet_key,
                amount,
            }),
            ProposalAction::TokenFreeze { mint, account } => call == (OutsideCall::FreezeAccount {
                program: remaining[2].key,
                mint,
                account,
                authority: team_wallet_key,
            }),
            ProposalAction::TokenThaw { mint, account } => call == (OutsideCall::ThawAccount {
                program: remaining[2].key,
                mint,
                account,
                authority: team_wallet_key,
            }),
            ProposalAction::TokenSetMintAuthority { mint, new_authority } => call == (OutsideCall::SetAuthority {
                program: remaining[1].key,
                mint,
                authority: team_wallet_key,
                kind: AuthorityKind::MintTokens,
                new_authority,
            }),
            ProposalAction::TokenSetFreezeAuthority { mint, new_authority } => call == (OutsideCall::SetAuthority {
                program: remaining[1].key,
                mint,
                authority: team_wallet_key,
                kind: AuthorityKind::FreezeAccount,
                new_authority,
            }),
            ProposalAction::TokenUpdateMetadata { mint, name, symbol, uri } => is_metadata_call(
                call,
                remaining[1].key,
                mint,
                team_wallet_key,
                name@,
                symbol@,
                uri@,
            ),
            _ => false,
        },
    }
}

/// What executing a proposal at `now` answers and leaves behind: the first failing check
/// is answered and nothing changes; otherwise the proposal is marked executed and the
/// action is carried out.
pub open spec fn execute_outcome(
    p: Proposal,
    new_p: Proposal,
    w: TeamWallet,
    new_w: TeamWallet,
    team_wallet_key: Pubkey,
    lamports: u64,
    remaining: Seq<AccountRef>,
    swap_data: Option<Seq<u8>>,
    now: i64,
    r: Result<OutsideCall, TeamWalletError>,
) -> bool {
    let error = if execute_check_error(p, w, now) is Some {
        execute_check_error(p, w, now)
    } else {
        execute_action_error(p.action, w, lamports, remaining, swap_data is Some)
    };
    match r {
        Err(e) => error == Some(e) && new_p == p && new_w == w,
        Ok(call) => {
            &&& error is None
            &&& new_p.executed
            &&& new_p.same_but_executed(&p)
            &&& execute_action_done(
                p.action,
                w,
                new_w,
                team_wallet_key,
                remaining,
                match swap_data { Some(d) => d, None => Seq::empty() },
                call,
            )
        },
    }
}

/// Executes an approved proposal at `now`. On success the proposal is marked executed and
/// the call to another program that carries out the action is returned; the runtime makes
/// that call, and the instruction fails as a whole when it fails.
pub fn execute_proposal(
    proposal: &mut Proposal,
    team_wallet: &mut TeamWallet,
    team_wallet_key: Pubkey,
    team_wallet_lamports: u64,
    remaining_accounts: &Vec<AccountRef>,
    swap_data: Option<Vec<u8>>,
    now: i64,
) -> (r: Result<OutsideCall, TeamWalletError>)
    requires
        old(team_wallet).wf(),
        old(proposal).approved ==> i64::MIN <= old(proposal).window_deadline() <= i64::MAX,
    ensures
        execute_outcome(
            *old(proposal),
            *final(proposal),
            *old(team_wallet),
            *final(team_wallet),
            team_wallet_key,
            team_wallet_lamports,
            remaining_accounts@,
            match swap_data { Some(d) => Some(d@), None => None },
            now,
            r,
        ),
        final(team_wallet).wf(),
{
    if proposal.executed {
        return Err(TeamWalletError::ProposalAlreadyExecuted);
    }
    if proposal.cancelled {
        return Err(TeamWalletError::ProposalAlreadyCancelled);
    }
    if proposal.is_expired(now) {
        return Err(TeamWalletError::ProposalExpired);
    }
    if (proposal.votes_for as u16) < team_wallet.votes_needed() {
        return Err(TeamWalletError::InsufficientVotes);
    }
    if proposal.action.requires_execution_window() {
        if !proposal.approved {
            return Err(TeamWalletError::SwapNotApproved);
        }
        if proposal.is_execution_window_expired(now) {
            return Err(TeamWalletError::SwapExecutionWindowExpired);
        }
    }
    let call = match &proposal.action {
        ProposalAction::TransferSol { amount, recipient } => exec_transfer_sol(
            team_wallet_lamports,
            remaining_accounts,
            *amount,
            *recipient,
        )?,
        ProposalAction::TransferToken { amount, recipient, mint } => exec_transfer_token(
            remaining_accounts,
            team_wallet_key,
            *amount,
            *recipient,
            *mint,
        )?,
        ProposalAction::Swap { min_amount_out, .. } => {
            let data = match swap_data {
                Some(d) => d,
                None => {
                    return Err(TeamWalletError::InvalidData);
                },
            };
            exec_swap(remaining_accounts, &team_wallet_key, data, *min_amount_out)?
        },
        ProposalAction::ChangeThreshold { new_threshold } => {
            if !(*new_threshold >= 1 && *new_threshold <= 100) {
                return Err(TeamWalletError::InvalidThreshold);
            }
            team_wallet.vote_threshold = *new_threshold;
            OutsideCall::Nothing
        },
        ProposalAction::AddVoter { voter } => {
            exec_add_voter(team_wallet, *voter)?;
            OutsideCall::Nothing
        },
        ProposalAction::RemoveVoter { voter } => {
            exec_remove_voter(team_wallet, *voter)?;
            OutsideCall::Nothing
        },
        ProposalAction::AddContributor { contributor } => {
            exec_add_contributor(team_wallet, *contributor)?;
            OutsideCall::Nothing
        },
        ProposalAction::RemoveContributor { contributor } => {
            exec_remove_contributor(team_wallet, *contributor)?;
            OutsideCall::Nothing
        },
        ProposalAction::UpgradeProgram { program_id, buffer, spill } => exec_upgrade_program(
            remaining_accounts,
            team_wallet_key,
            *program_id,
            *buffer,
            *spill,
        )?,
        ProposalAction::DeleteProgram { program_id, spill } => exec_delete_program(
            remaining_accounts,
            team_wallet_key,
            *program_id,
            *spill,
        )?,
        ProposalAction::TokenMint { mint, amount, recipient } => exec_token_mint(
            remaining_accounts,
            team_wallet_key,
            *mint,
            *amount,
            *recipient,
        )?,
        ProposalAction::TokenBurn { mint, amount } => exec_token_burn(remaining_accounts, team_wallet_key, *mint, *amount)?,
        ProposalAction::TokenFreeze { mint, account } => exec_token_freeze(remaining_accounts, team_wallet_key, *mint, *account)?,
        ProposalAction::TokenThaw { mint, account } => exec_token_thaw(remaining_accounts, team_wallet_key, *mint, *account)?,
        ProposalAction::TokenSetMintAuthority { mint, new_authority } => exec_set_authority(
            remaining_accounts,
            team_wallet_key,
            *mint,
            AuthorityKind::MintTokens,
            *new_authority,
        )?,
        ProposalAction::TokenSetFreezeAuthority { mint, new_authority } => exec_set_authority(
            remaining_accounts,
            team_wallet_key,
            *mint,
            AuthorityKind::FreezeAccount,
            *new_authority,
        )?,
        ProposalAction::TokenUpdateMetadata { mint, name, symbol, uri } => exec_update_metadata(
            remaining_accounts,
            team_wallet_key,
            *mint,
            name.clone(),
            symbol.clone(),
            uri.clone(),
        )?,
    };
    proposal.executed = true;
    Ok(call)
}

} // verus!
