//! What an instruction asks of other programs once its checks have passed.
//! The library decides the call and its arguments; the runtime carries it out.

use vstd::prelude::*;
use crate::errors::TeamWalletError;
use crate::pubkey::Pubkey;

verus! {

/// An account handed to an instruction, or named in an instruction to another program.
#[derive(Clone, Copy, Debug)]
pub struct AccountRef {
    pub key: Pubkey,
    pub is_signer: bool,
    pub is_writable: bool,
}

/// What the program reads of a token account: its mint, its owner and its balance.
#[derive(Clone, Copy, Debug)]
pub struct TokenAccountState {
    pub mint: Pubkey,
    pub owner: Pubkey,
    pub amount: u64,
}

/// Which authority of a mint is being set.
#[derive(Clone, Copy, Debug, PartialEq, Eq, Structural)]
pub enum AuthorityKind {
    MintTokens,
    FreezeAccount,
}

/// An instruction to another program: whom to call, with which accounts and bytes.
pub struct InstructionPlan {
    pub program_id: Pubkey,
    pub accounts: Vec<AccountRef>,
    pub data: Vec<u8>,
}

/// The call to another program that carries out an approved action, signed by the team wallet.
pub enum OutsideCall {
    /// Nothing to call: the action changed the wallet's own account.
    Nothing,
    /// Move `amount` lamports from the team wallet to the first remaining account.
    MoveLamports { amount: u64 },
    /// Through the token program `program`, transfer `amount` tokens of `mint` from `from`
    /// to `to` under `authority`, checked against the mint's decimals.
    TransferChecked { program: Pubkey, mint: Pubkey, from: Pubkey, to: Pubkey, authority: Pubkey, amount: u64 },
    /// Run a swap, then require that at least `min_amount_out` arrived.
    Swap { instruction: InstructionPlan, min_amount_out: u64 },
    /// Invoke an instruction built here.
    Invoke { instruction: InstructionPlan },
    /// Through `program`, mint `amount` tokens of `mint` to `account` under `authority`.
    MintTo { program: Pubkey, mint: Pubkey, account: Pubkey, authority: Pubkey, amount: u64 },
    /// Through `program`, burn `amount` tokens of `mint` from `account` under `authority`.
    Burn { program: Pubkey, mint: Pubkey, account: Pubkey, authority: Pubkey, amount: u64 },
    /// Through `program`, freeze `account` of `mint` under the freeze `authority`.
    FreezeAccount { program: Pubkey, mint: Pubkey, account: Pubkey, authority: Pubkey },
    /// Through `program`, thaw `account` of `mint` under the freeze `authority`.
    ThawAccount { program: Pubkey, mint: Pubkey, account: Pubkey, authority: Pubkey },
    /// Through `program`, hand the `kind` authority of `mint`, now `authority`, to
    /// `new_authority` (none: no one).
    SetAuthority { program: Pubkey, mint: Pubkey, authority: Pubkey, kind: AuthorityKind, new_authority: Option<Pubkey> },
    /// Invoke the instructions that set the token metadata's name, symbol and uri, in that order.
    UpdateMetadata { name: InstructionPlan, symbol: InstructionPlan, uri: InstructionPlan },
}

/// A field of a token's metadata.
#[derive(Clone, Copy, Debug, PartialEq, Eq, Structural)]
pub enum MetadataField {
    Name,
    Symbol,
    Uri,
}

/// The instruction's view of a passed account: the same account, a signer also when it is
/// the team wallet, which signs by its seeds.
pub open spec fn signed_by_wallet(a: AccountRef, team_wallet_key: Pubkey) -> AccountRef {
    AccountRef { key: a.key, is_signer: a.is_signer || a.key == team_wallet_key, is_writable: a.is_writable }
}

/// The accounts named in a swap instruction: the passed accounts from `from` on, in order.
pub open spec fn swap_metas(accounts: Seq<AccountRef>, from: int, team_wallet_key: Pubkey) -> Seq<AccountRef> {
    accounts.skip(from).map_values(|a: AccountRef| signed_by_wallet(a, team_wallet_key))
}

/// The accounts from position `from` on, as a swap instruction names them.
pub fn account_metas_from(accounts: &Vec<AccountRef>, from: usize, team_wallet_key: &Pubkey) -> (r: Vec<AccountRef>)
    requires
        from <= accounts.len(),
    ensures
        r@ == swap_metas(accounts@, from as int, *team_wallet_key),
{
    let mut out: Vec<AccountRef> = Vec::new();
    let mut i: usize = from;
    while i < accounts.len()
        invariant
            from <= i <= accounts.len(),
            out@ == accounts@.subrange(from as int, i as int).map_values(
                |a: AccountRef| signed_by_wallet(a, *team_wallet_key),
            ),
        decreases accounts.len() - i,
    {
        let a = accounts[i];
        let is_signer = a.is_signer || crate::pubkey::key_eq(&a.key, team_wallet_key);
        out.push(AccountRef { key: a.key, is_signer, is_writable: a.is_writable });
        proof {
            assert(accounts@.subrange(from as int, i as int + 1) =~= accounts@.subrange(
                from as int,
                i as int,
            ).push(a));
        }
        i = i + 1;
    }
    assert(accounts@.subrange(from as int, accounts.len() as int) =~= accounts@.skip(from as int));
    out
}

/// The amount held by a token account, read from the little-endian bytes 64 to 72 of its data.
pub fn token_account_amount(data: &Vec<u8>) -> (r: u64)
    requires
        data@.len() >= 72,
    ensures
        r == vstd::bytes::spec_u64_from_le_bytes(data@.subrange(64, 72)),
{
    let bytes = vstd::slice::slice_subrange(data.as_slice(), 64, 72);
    vstd::bytes::u64_from_le_bytes(bytes)
}

/// The decimals of a mint, read from byte 44 of its data.
pub fn mint_decimals(data: &Vec<u8>) -> (r: u8)
    requires
        data@.len() > 44,
    ensures
        r == data@[44],
{
    data[44]
}

/// Why a swap's outcome is refused: what arrived falls short of `min_amount_out`.
pub open spec fn swap_output_error(before: u64, after: u64, min_amount_out: u64) -> Option<TeamWalletError> {
    if (if after >= before { after - before } else { 0 }) < min_amount_out {
        Some(TeamWalletError::SlippageExceeded)
    } else {
        None
    }
}

/// Checks the output account's balance after a swap against its balance before: at least
/// `min_amount_out` must have arrived. Returns what arrived.
pub fn check_swap_output(before: u64, after: u64, min_amount_out: u64) -> (r: Result<u64, TeamWalletError>)
    ensures
        match r {
            Ok(received) => swap_output_error(before, after, min_amount_out) is None
                && received == (if after >= before { after - before } else { 0 }),
            Err(e) => swap_output_error(before, after, min_amount_out) == Some(e),
        },
{
    let received = after.saturating_sub(before);
    if received < min_amount_out {
        return Err(TeamWalletError::SlippageExceeded);
    }
    Ok(received)
}

} // verus!
