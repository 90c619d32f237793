//! The calls that the library makes into the Solana program library (through `anchor_lang`)
//! and into the token metadata interface. Their contracts are believed, not proved: each
//! states what the called crate's source shows.

use vstd::prelude::*;
use anchor_lang::solana_program::pubkey::Pubkey as Address;
use spl_token_metadata_interface::state::Field;
use anchor_spl::token_2022::spl_token_2022::extension::{group_member_pointer, group_pointer, interest_bearing_mint, transfer_fee};
use crate::cpi::{AccountRef, InstructionPlan, MetadataField};
use crate::pubkey::Pubkey;

verus! {

/// The bytes of the upgradeable BPF loader's address, `BPFLoaderUpgradeab1e11111111111111111111111`.
pub open spec fn bpf_loader_upgradeable_bytes() -> Seq<u8> {
    seq![
        2u8, 168u8, 246u8, 145u8, 78u8, 136u8, 161u8, 176u8, 226u8, 16u8, 21u8, 62u8, 247u8, 99u8,
        174u8, 43u8, 0u8, 194u8, 185u8, 61u8, 22u8, 193u8, 36u8, 210u8, 192u8, 83u8, 122u8, 16u8,
        4u8, 128u8, 0u8, 0u8,
    ]
}

/// The address derived from the single seed `seed` for the program `program_id`, with its bump,
/// as `Pubkey::try_find_program_address` searches for it; `None` when no bump yields one.
pub uninterp spec fn program_address(seed: Seq<u8>, program_id: Seq<u8>) -> Option<(Seq<u8>, u8)>;

/// Calls `bpf_loader_upgradeable::id()`: the fixed address declared in `solana_sdk_ids`.
#[verifier::external_body]
pub(crate) fn bpf_loader_upgradeable_id() -> (r: Pubkey)
    ensures
        r.bytes@ == bpf_loader_upgradeable_bytes(),
{
    Pubkey { bytes: anchor_lang::solana_program::bpf_loader_upgradeable::id().to_bytes() }
}

/// Calls `Pubkey::try_find_program_address(&[seed], program_id)`. Claimed: its result is a function
/// of the two addresses alone, named `program_address`; nothing more is said of it.
#[verifier::external_body]
pub(crate) fn try_find_program_address(seed: &Pubkey, program_id: &Pubkey) -> (r: Option<
    (Pubkey, u8),
>)
    ensures
        match r {
            Some((k, b)) => program_address(seed.bytes@, program_id.bytes@) == Some((k.bytes@, b)),
            None => program_address(seed.bytes@, program_id.bytes@) is None,
        },
{
    let pid = anchor_lang::prelude::Pubkey::new_from_array(program_id.bytes);
    match anchor_lang::prelude::Pubkey::try_find_program_address(&[&seed.bytes], &pid) {
        Some((k, b)) => Some((Pubkey { bytes: k.to_bytes() }, b)),
        None => None,
    }
}

/// The bytes of the rent sysvar's address, `SysvarRent111111111111111111111111111111111`.
pub open spec fn rent_sysvar_bytes() -> Seq<u8> {
    seq![
        6u8, 167u8, 213u8, 23u8, 25u8, 44u8, 92u8, 81u8, 33u8, 140u8, 201u8, 76u8, 61u8, 74u8,
        241u8, 127u8, 88u8, 218u8, 238u8, 8u8, 155u8, 161u8, 253u8, 68u8, 227u8, 219u8, 217u8,
        138u8, 0u8, 0u8, 0u8, 0u8,
    ]
}

/// The bytes of the clock sysvar's address, `SysvarC1ock11111111111111111111111111111111`.
pub open spec fn clock_sysvar_bytes() -> Seq<u8> {
    seq![
        6u8, 167u8, 213u8, 23u8, 24u8, 199u8, 116u8, 201u8, 40u8, 86u8, 99u8, 152u8, 105u8, 29u8,
        94u8, 182u8, 139u8, 94u8, 184u8, 163u8, 155u8, 75u8, 109u8, 92u8, 115u8, 85u8, 91u8,
        33u8, 0u8, 0u8, 0u8, 0u8,
    ]
}

/// Whether `key` is the program data account of `program`: the address derived from the
/// program's address for the upgradeable loader.
pub open spec fn derived_program_data(key: Pubkey, program: Pubkey) -> bool {
    match program_address(program.bytes@, bpf_loader_upgradeable_bytes()) {
        Some((k, _)) => key.bytes@ == k,
        None => false,
    }
}

/// Whether `ix` is the upgradeable loader's `Upgrade` instruction for `program` from `buffer`,
/// under `authority`, refunding the buffer's lamports to `spill`.
pub open spec fn is_upgrade_instruction(ix: InstructionPlan, program: Pubkey, buffer: Pubkey, authority: Pubkey, spill: Pubkey) -> bool {
    &&& ix.program_id.bytes@ == bpf_loader_upgradeable_bytes()
    &&& ix.accounts@.len() == 7
    &&& derived_program_data(ix.accounts@[0].key, program)
    &&& !ix.accounts@[0].is_signer && ix.accounts@[0].is_writable
    &&& ix.accounts@[1] == AccountRef { key: program, is_signer: false, is_writable: true }
    &&& ix.accounts@[2] == AccountRef { key: buffer, is_signer: false, is_writable: true }
    &&& ix.accounts@[3] == AccountRef { key: spill, is_signer: false, is_writable: true }
    &&& ix.accounts@[4].key.bytes@ == rent_sysvar_bytes()
    &&& !ix.accounts@[4].is_signer && !ix.accounts@[4].is_writable
    &&& ix.accounts@[5].key.bytes@ == clock_sysvar_bytes()
    &&& !ix.accounts@[5].is_signer && !ix.accounts@[5].is_writable
    &&& ix.accounts@[6] == AccountRef { key: authority, is_signer: true, is_writable: false }
    &&& ix.data@ == seq![3u8, 0u8, 0u8, 0u8]
}

/// Whether `ix` is the upgradeable loader's `SetAuthority` instruction that moves the upgrade
/// authority of `program` from `current` to `new_authority`.
pub open spec fn is_set_upgrade_authority_instruction(ix: InstructionPlan, program: Pubkey, current: Pubkey, new_authority: Pubkey) -> bool {
    &&& ix.program_id.bytes@ == bpf_loader_upgradeable_bytes()
    &&& ix.accounts@.len() == 3
    &&& derived_program_data(ix.accounts@[0].key, program)
    &&& !ix.accounts@[0].is_signer && ix.accounts@[0].is_writable
    &&& ix.accounts@[1] == AccountRef { key: current, is_signer: true, is_writable: false }
    &&& ix.accounts@[2] == AccountRef { key: new_authority, is_signer: false, is_writable: false }
    &&& ix.data@ == seq![4u8, 0u8, 0u8, 0u8]
}

/// The tag of the token metadata interface's `UpdateField` instruction: the first eight
/// bytes of the SHA-256 hash of `spl_token_metadata_interface:updating_field`.
pub open spec fn update_field_discriminator() -> Seq<u8> {
    seq![221u8, 233u8, 49u8, 45u8, 181u8, 202u8, 220u8, 200u8]
}

/// The borsh tag of a metadata field: its position among the field variants.
pub open spec fn field_tag(field: MetadataField) -> u8 {
    match field {
        MetadataField::Name => 0,
        MetadataField::Symbol => 1,
        MetadataField::Uri => 2,
    }
}

/// Whether borsh can encode `value`: its UTF-8 bytes are counted by a `u32`.
pub open spec fn borsh_string_fits(value: Seq<char>) -> bool {
    vstd::utf8::encode_utf8(value).len() <= u32::MAX
}

/// The data of the token metadata interface's `UpdateField` instruction that sets `field` to
/// `value`: its tag, then the field and the value in borsh encoding, the field's tag byte and
/// the value's UTF-8 bytes after their count as a little-endian `u32`.
pub open spec fn update_field_data(field: MetadataField, value: Seq<char>) -> Seq<u8> {
    let bytes = vstd::utf8::encode_utf8(value);
    update_field_discriminator() + seq![field_tag(field)] + vstd::bytes::spec_u32_to_le_bytes(bytes.len() as u32) + bytes
}

/// Whether `ix` is the token metadata interface's `UpdateField` instruction to `program_id`,
/// setting `field` of the metadata held by `metadata` to `value`, signed by `update_authority`.
pub open spec fn is_update_field(ix: InstructionPlan, program_id: Pubkey, metadata: Pubkey, update_authority: Pubkey, field: MetadataField, value: Seq<char>) -> bool {
    &&& ix.program_id == program_id
    &&& ix.accounts@ == seq![
        AccountRef { key: metadata, is_signer: false, is_writable: true },
        AccountRef { key: update_authority, is_signer: true, is_writable: false },
    ]
    &&& ix.data@ == update_field_data(field, value)
}

/// The bytes of the Token-2022 program's address, `TokenzQdBNbLqP5VEhdkAS6EPFLC1PHnBqCXEpPxuEb`.
pub open spec fn token_2022_bytes() -> Seq<u8> {
    seq![
        6u8, 221u8, 246u8, 225u8, 238u8, 117u8, 143u8, 222u8, 24u8, 66u8, 93u8, 188u8, 228u8,
        108u8, 205u8, 218u8, 182u8, 26u8, 252u8, 77u8, 131u8, 185u8, 13u8, 39u8, 254u8, 189u8,
        249u8, 40u8, 216u8, 161u8, 139u8, 252u8,
    ]
}

/// The accounts of a Token-2022 extension instruction on `mint`: the mint, writable, and
/// its authority, signing.
pub open spec fn mint_and_authority(mint: Pubkey, authority: Pubkey) -> Seq<AccountRef> {
    seq![
        AccountRef { key: mint, is_signer: false, is_writable: true },
        AccountRef { key: authority, is_signer: true, is_writable: false },
    ]
}

/// Whether `ix` is Token-2022's `SetTransferFee` instruction for `mint`, signed by
/// `authority`: the transfer fee extension's tag 26, the instruction's tag 5, then the basis
/// points and the maximum fee, little-endian.
pub open spec fn is_set_transfer_fee(ix: InstructionPlan, token_program: Pubkey, mint: Pubkey, authority: Pubkey, basis_points: u16, maximum_fee: u64) -> bool {
    &&& ix.program_id == token_program
    &&& ix.accounts@ == mint_and_authority(mint, authority)
    &&& ix.data@ == seq![26u8, 5u8] + vstd::bytes::spec_u16_to_le_bytes(basis_points)
        + vstd::bytes::spec_u64_to_le_bytes(maximum_fee)
}

/// Whether `ix` is Token-2022's `UpdateRate` instruction for `mint`, signed by `authority`:
/// the interest-bearing extension's tag 33, the instruction's tag 1, then the rate in basis
/// points, little-endian.
pub open spec fn is_update_rate(ix: InstructionPlan, token_program: Pubkey, mint: Pubkey, authority: Pubkey, rate: i16) -> bool {
    &&& ix.program_id == token_program
    &&& ix.accounts@ == mint_and_authority(mint, authority)
    &&& ix.data@ == seq![33u8, 1u8] + vstd::bytes::spec_u16_to_le_bytes(rate as u16)
}

/// Whether `ix` is Token-2022's `WithdrawWithheldTokensFromMint` instruction, moving the fees
/// withheld in `mint` to `destination` under `authority`: the transfer fee extension's tag 26,
/// then the instruction's tag 2.
pub open spec fn is_withdraw_withheld_from_mint(ix: InstructionPlan, token_program: Pubkey, mint: Pubkey, destination: Pubkey, authority: Pubkey) -> bool {
    &&& ix.program_id == token_program
    &&& ix.accounts@ == seq![
        AccountRef { key: mint, is_signer: false, is_writable: true },
        AccountRef { key: destination, is_signer: false, is_writable: true },
        AccountRef { key: authority, is_signer: true, is_writable: false },
    ]
    &&& ix.data@ == seq![26u8, 2u8]
}

/// Whether `k` is the all-zero address, which a pointer cannot name.
pub open spec fn is_zero_key(k: Pubkey) -> bool {
    k.bytes@ == Seq::new(32, |_i: int| 0u8)
}

/// Whether `ix` is the `Update` instruction of the Token-2022 pointer extension tagged
/// `extension` (40 the group pointer, 41 the group member pointer) for `mint`, signed by
/// `authority`: the tag, the instruction's tag 1, then the new address, all zeros for none.
pub open spec fn is_pointer_update(ix: InstructionPlan, token_program: Pubkey, mint: Pubkey, authority: Pubkey, extension: u8, address: Option<Pubkey>) -> bool {
    &&& ix.program_id == token_program
    &&& ix.accounts@ == mint_and_authority(mint, authority)
    &&& ix.data@ == seq![extension, 1u8] + match address {
        Some(k) => k.bytes@,
        None => Seq::new(32, |_i: int| 0u8),
    }
}

/// Calls `spl_token_2022::extension::transfer_fee::instruction::withdraw_withheld_tokens_from_mint`
/// with no multisig signers. Claimed, as its source builds it: refused (`None`) unless the
/// token program is Token-2022; else the instruction `is_withdraw_withheld_from_mint` describes.
#[verifier::external_body]
pub(crate) fn withdraw_withheld_instruction(token_program: &Pubkey, mint: &Pubkey, destination: &Pubkey, authority: &Pubkey) -> (r: Option<InstructionPlan>)
    ensures
        r is Some <==> token_program.bytes@ == token_2022_bytes(),
        r matches Some(ix) ==> is_withdraw_withheld_from_mint(ix, *token_program, *mint, *destination, *authority),
{
    let (p, m) = (Address::new_from_array(token_program.bytes), Address::new_from_array(mint.bytes));
    let (d, a) = (Address::new_from_array(destination.bytes), Address::new_from_array(authority.bytes));
    match transfer_fee::instruction::withdraw_withheld_tokens_from_mint(&p, &m, &d, &a, &[]) {
        Ok(ix) => Some(InstructionPlan {
            program_id: Pubkey { bytes: ix.program_id.to_bytes() },
            accounts: ix.accounts.iter().map(|meta| AccountRef { key: Pubkey { bytes: meta.pubkey.to_bytes() }, is_signer: meta.is_signer, is_writable: meta.is_writable }).collect(),
            data: ix.data,
        }),
        Err(_) => None,
    }
}

/// Calls `spl_token_2022::extension::group_pointer::instruction::update` with no multisig
/// signers. Claimed, as its source builds it: refused (`None`) unless the token program is
/// Token-2022 and the new address, when given, is not all zeros; else the instruction that
/// `is_pointer_update` describes with the group pointer's tag, 40.
#[verifier::external_body]
pub(crate) fn group_pointer_update_instruction(token_program: &Pubkey, mint: &Pubkey, authority: &Pubkey, address: Option<Pubkey>) -> (r: Option<InstructionPlan>)
    ensures
        r is Some <==> (token_program.bytes@ == token_2022_bytes() && !(address matches Some(k) && is_zero_key(k))),
        r matches Some(ix) ==> is_pointer_update(ix, *token_program, *mint, *authority, 40u8, address),
{
    let (p, m, a) = (Address::new_from_array(token_program.bytes), Address::new_from_array(mint.bytes), Address::new_from_array(authority.bytes));
    match group_pointer::instruction::update(&p, &m, &a, &[], address.map(|k| Address::new_from_array(k.bytes))) {
        Ok(ix) => Some(InstructionPlan {
            program_id: Pubkey { bytes: ix.program_id.to_bytes() },
            accounts: ix.accounts.iter().map(|meta| AccountRef { key: Pubkey { bytes: meta.pubkey.to_bytes() }, is_signer: meta.is_signer, is_writable: meta.is_writable }).collect(),
            data: ix.data,
        }),
        Err(_) => None,
    }
}

/// Calls `spl_token_2022::extension::group_member_pointer::instruction::update` with no
/// multisig signers. Claimed, as its source builds it: refused (`None`) unless the token
/// program is Token-2022 and the new address, when given, is not all zeros; else the
/// instruction that `is_pointer_update` describes with the member pointer's tag, 41.
#[verifier::external_body]
pub(crate) fn member_pointer_update_instruction(token_program: &Pubkey, mint: &Pubkey, authority: &Pubkey, address: Option<Pubkey>) -> (r: Option<InstructionPlan>)
    ensures
        r is Some <==> (token_program.bytes@ == token_2022_bytes() && !(address matches Some(k) && is_zero_key(k))),
        r matches Some(ix) ==> is_pointer_update(ix, *token_program, *mint, *authority, 41u8, address),
{
    let (p, m, a) = (Address::new_from_array(token_program.bytes), Address::new_from_array(mint.bytes), Address::new_from_array(authority.bytes));
    match group_member_pointer::instruction::update(&p, &m, &a, &[], address.map(|k| Address::new_from_array(k.bytes))) {
        Ok(ix) => Some(InstructionPlan {
            program_id: Pubkey { bytes: ix.program_id.to_bytes() },
            accounts: ix.accounts.iter().map(|meta| AccountRef { key: Pubkey { bytes: meta.pubkey.to_bytes() }, is_signer: meta.is_signer, is_writable: meta.is_writable }).collect(),
            data: ix.data,
        }),
        Err(_) => None,
    }
}

/// Calls `spl_token_2022::extension::transfer_fee::instruction::set_transfer_fee` with no
/// multisig signers. Claimed, as its source builds it: refused (`None`) unless the token
/// program is Token-2022; else the instruction that `is_set_transfer_fee` describes.
#[verifier::external_body]
pub(crate) fn set_transfer_fee_instruction(token_program: &Pubkey, mint: &Pubkey, authority: &Pubkey, basis_points: u16, maximum_fee: u64) -> (r: Option<InstructionPlan>)
    ensures
        r is Some <==> token_program.bytes@ == token_2022_bytes(),
        r matches Some(ix) ==> is_set_transfer_fee(ix, *token_program, *mint, *authority, basis_points, maximum_fee),
{
    let (p, m, a) = (Address::new_from_array(token_program.bytes), Address::new_from_array(mint.bytes), Address::new_from_array(authority.bytes));
    match transfer_fee::instruction::set_transfer_fee(&p, &m, &a, &[], basis_points, maximum_fee) {
        Ok(ix) => Some(InstructionPlan {
            program_id: Pubkey { bytes: ix.program_id.to_bytes() },
            accounts: ix.accounts.iter().map(|meta| AccountRef { key: Pubkey { bytes: meta.pubkey.to_bytes() }, is_signer: meta.is_signer, is_writable: meta.is_writable }).collect(),
            data: ix.data,
        }),
        Err(_) => None,
    }
}

/// Calls `spl_token_2022::extension::interest_bearing_mint::instruction::update_rate` with no
/// multisig signers. Claimed, as its source builds it: refused (`None`) unless the token
/// program is Token-2022; else the instruction that `is_update_rate` describes.
#[verifier::external_body]
pub(crate) fn update_rate_instruction(token_program: &Pubkey, mint: &Pubkey, authority: &Pubkey, rate: i16) -> (r: Option<InstructionPlan>)
    ensures
        r is Some <==> token_program.bytes@ == token_2022_bytes(),
        r matches Some(ix) ==> is_update_rate(ix, *token_program, *mint, *authority, rate),
{
    let (p, m, a) = (Address::new_from_array(token_program.bytes), Address::new_from_array(mint.bytes), Address::new_from_array(authority.bytes));
    match interest_bearing_mint::instruction::update_rate(&p, &m, &a, &[], rate) {
        Ok(ix) => Some(InstructionPlan {
            program_id: Pubkey { bytes: ix.program_id.to_bytes() },
            accounts: ix.accounts.iter().map(|meta| AccountRef { key: Pubkey { bytes: meta.pubkey.to_bytes() }, is_signer: meta.is_signer, is_writable: meta.is_writable }).collect(),
            data: ix.data,
        }),
        Err(_) => None,
    }
}

/// Calls `bpf_loader_upgradeable::upgrade(program, buffer, authority, spill)`. Claimed, as the
/// loader interface's source builds it: the loader's `Upgrade` instruction, naming the program
/// data account derived from `program`, the program, the buffer, the spill account, the rent
/// and clock sysvars and the signing authority; its data the variant's index, 3, as a
/// little-endian `u32`. The derivation panics when no address can be found, which `requires`
/// leaves out.
#[verifier::external_body]
pub(crate) fn upgrade_instruction(program: &Pubkey, buffer: &Pubkey, authority: &Pubkey, spill: &Pubkey) -> (r: InstructionPlan)
    requires
        program_address(program.bytes@, bpf_loader_upgradeable_bytes()) is Some,
    ensures
        is_upgrade_instruction(r, *program, *buffer, *authority, *spill),
{
    let (p, b) = (Address::new_from_array(program.bytes), Address::new_from_array(buffer.bytes));
    let (a, s) = (Address::new_from_array(authority.bytes), Address::new_from_array(spill.bytes));
    let ix = anchor_lang::solana_program::bpf_loader_upgradeable::upgrade(&p, &b, &a, &s);
    let accounts = ix.accounts.iter().map(|meta| AccountRef { key: Pubkey { bytes: meta.pubkey.to_bytes() }, is_signer: meta.is_signer, is_writable: meta.is_writable }).collect();
    InstructionPlan { program_id: Pubkey { bytes: ix.program_id.to_bytes() }, accounts, data: ix.data }
}

/// Calls `bpf_loader_upgradeable::set_upgrade_authority(program, current, Some(new_authority))`.
/// Claimed, as the loader interface's source builds it: the loader's `SetAuthority`
/// instruction, naming the program data account derived from `program`, the signing current
/// authority and the new one; its data the variant's index, 4, as a little-endian `u32`.
/// The derivation panics when no address can be found, which `requires` leaves out.
#[verifier::external_body]
pub(crate) fn set_upgrade_authority_instruction(program: &Pubkey, current: &Pubkey, new_authority: &Pubkey) -> (r: InstructionPlan)
    requires
        program_address(program.bytes@, bpf_loader_upgradeable_bytes()) is Some,
    ensures
        is_set_upgrade_authority_instruction(r, *program, *current, *new_authority),
{
    let (p, c) = (Address::new_from_array(program.bytes), Address::new_from_array(current.bytes));
    let n = Address::new_from_array(new_authority.bytes);
    let ix = anchor_lang::solana_program::bpf_loader_upgradeable::set_upgrade_authority(&p, &c, Some(&n));
    let accounts = ix.accounts.iter().map(|meta| AccountRef { key: Pubkey { bytes: meta.pubkey.to_bytes() }, is_signer: meta.is_signer, is_writable: meta.is_writable }).collect();
    InstructionPlan { program_id: Pubkey { bytes: ix.program_id.to_bytes() }, accounts, data: ix.data }
}

/// Calls `spl_token_metadata_interface::instruction::update_field`. Claimed, as the interface's
/// source builds it: an instruction to `program_id` naming the metadata account, writable, and
/// the update authority, signing; its data is `update_field_data` of the field and value.
/// Encoding a value of more UTF-8 bytes than a `u32` counts panics, which `requires` leaves out.
#[verifier::external_body]
pub(crate) fn update_field_instruction(program_id: &Pubkey, metadata: &Pubkey, update_authority: &Pubkey, field: MetadataField, value: String) -> (r: InstructionPlan)
    requires
        borsh_string_fits(value@),
    ensures
        r.program_id == *program_id,
        r.accounts@ == seq![
            AccountRef { key: *metadata, is_signer: false, is_writable: true },
            AccountRef { key: *update_authority, is_signer: true, is_writable: false },
        ],
        r.data@ == update_field_data(field, value@),
{
    let f = match field { MetadataField::Name => Field::Name, MetadataField::Symbol => Field::Symbol, MetadataField::Uri => Field::Uri };
    let (p, m, a) = (Address::new_from_array(program_id.bytes), Address::new_from_array(metadata.bytes), Address::new_from_array(update_authority.bytes));
    let ix = spl_token_metadata_interface::instruction::update_field(&p, &m, &a, f, value);
    let accounts = ix.accounts.iter().map(|meta| AccountRef { key: Pubkey { bytes: meta.pubkey.to_bytes() }, is_signer: meta.is_signer, is_writable: meta.is_writable }).collect();
    InstructionPlan { program_id: Pubkey { bytes: ix.program_id.to_bytes() }, accounts, data: ix.data }
}

} // verus!
