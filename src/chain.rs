//! The calls this library makes into the network's SDK and the token program
//! crate, each behind a contract stated from that crate's source.
use vstd::prelude::*;

use solana_sdk::pubkey::Pubkey;

use crate::address::Address;
use crate::instruction::{le_bytes, writable_meta, AccountMeta, Instruction};

verus! {

#[verifier::external_type_specification]
#[verifier::external_body]
pub struct ExProgramError(solana_sdk::program_error::ProgramError);

/// The address of the token program.
pub open spec fn token_program_bytes() -> Seq<u8> {
    seq![
        6u8, 221, 246, 225, 215, 101, 161, 147, 217, 203, 225, 70, 206, 235, 121, 172,
        28, 180, 133, 237, 95, 91, 55, 145, 58, 140, 245, 133, 126, 255, 0, 169,
    ]
}

/// The address of the rent sysvar.
pub open spec fn rent_sysvar_bytes() -> Seq<u8> {
    seq![
        6u8, 167, 213, 23, 25, 44, 92, 81, 33, 140, 201, 76, 61, 74, 241, 127,
        88, 218, 238, 8, 155, 161, 253, 68, 227, 219, 217, 138, 0, 0, 0, 0,
    ]
}

/// The address of the system program: 32 zero bytes.
pub open spec fn system_program_bytes() -> Seq<u8> {
    Seq::new(32, |i: int| 0u8)
}

/// What the program-address search returns for one seed and a program: the
/// first off-curve address (with its bump byte) found, if any.
pub uninterp spec fn pda_search(seed: Seq<u8>, program: Seq<u8>) -> Option<(Seq<u8>, u8)>;

/// The view of a searched address.
pub open spec fn pda_view(r: Option<(Address, u8)>) -> Option<(Seq<u8>, u8)> {
    match r {
        Some((a, bump)) => Some((a@, bump)),
        None => None,
    }
}

/// The payload of the system program's create-account instruction: the
/// variant index as a little-endian `u32`, then lamports, space and owner.
pub open spec fn create_account_data(lamports: u64, space: u64, owner: Seq<u8>) -> Seq<u8> {
    seq![0u8, 0u8, 0u8, 0u8] + le_bytes(lamports) + le_bytes(space) + owner
}

/// The payload of the token program's initialize-mint (second form)
/// instruction without a freeze authority: tag 20, decimals, the mint
/// authority, and 0 for "no freeze authority".
pub open spec fn initialize_mint2_data(authority: Seq<u8>, decimals: u8) -> Seq<u8> {
    seq![20u8, decimals] + authority + seq![0u8]
}

/// Relies on `Pubkey::try_find_program_address` with the single seed `seed`:
/// its result depends on the seed and the program alone.
#[verifier::external_body]
pub(crate) fn try_find_pda(seed: &[u8], program: &Address) -> (r: Option<(Address, u8)>)
    ensures
        pda_view(r) == pda_search(seed@, program@),
{
    Pubkey::try_find_program_address(&[seed], &Pubkey::new_from_array(program.bytes)).map(
        |(k, bump)| (Address { bytes: k.to_bytes() }, bump),
    )
}

/// Relies on `spl_token::id()`, the token program's declared address.
#[verifier::external_body]
pub(crate) fn token_program_id() -> (r: Address)
    ensures
        r@ == token_program_bytes(),
{
    Address { bytes: spl_token::id().to_bytes() }
}

/// Relies on `sysvar::rent::id()`, the rent sysvar's declared address.
#[verifier::external_body]
pub(crate) fn rent_sysvar_id() -> (r: Address)
    ensures
        r@ == rent_sysvar_bytes(),
{
    Address { bytes: solana_sdk::sysvar::rent::id().to_bytes() }
}

/// Relies on `Mint::LEN` of the token program crate: a mint account takes 82 bytes.
#[verifier::external_body]
pub(crate) fn mint_len() -> (r: usize)
    ensures
        r == 82,
{
    <spl_token::state::Mint as solana_sdk::program_pack::Pack>::LEN
}

/// Relies on `system_instruction::create_account`: a system program
/// instruction whose accounts are the funding and the new account, both
/// writable signers, and whose payload is the bincode form of
/// `CreateAccount { lamports, space, owner }`.
#[verifier::external_body]
pub(crate) fn create_account(
    from: Address,
    to: Address,
    lamports: u64,
    space: u64,
    owner: Address,
) -> (r: Instruction)
    ensures
        r.program_id@ == system_program_bytes(),
        r.accounts@ == seq![writable_meta(from, true), writable_meta(to, true)],
        r.data@ == create_account_data(lamports, space, owner@),
{
    let ix = solana_sdk::system_instruction::create_account(
        &Pubkey::new_from_array(from.bytes),
        &Pubkey::new_from_array(to.bytes),
        lamports,
        space,
        &Pubkey::new_from_array(owner.bytes),
    );
    let accounts = ix.accounts.iter().map(
        |m| AccountMeta { address: Address { bytes: m.pubkey.to_bytes() }, is_signer: m.is_signer, is_writable: m.is_writable },
    ).collect();
    Instruction { program_id: Address { bytes: ix.program_id.to_bytes() }, accounts, data: ix.data }
}

/// Relies on `spl_token::instruction::initialize_mint2` with no freeze
/// authority: it fails exactly when `token_program` is not the token
/// program's address, and otherwise names the mint as its one writable,
/// non-signing account.
#[verifier::external_body]
pub(crate) fn initialize_mint2(
    token_program: Address,
    mint: Address,
    authority: Address,
    decimals: u8,
) -> (r: Result<Instruction, solana_sdk::program_error::ProgramError>)
    ensures
        r is Ok <==> token_program@ == token_program_bytes(),
        r matches Ok(ix) ==> {
            &&& ix.program_id == token_program
            &&& ix.accounts@ == seq![writable_meta(mint, false)]
            &&& ix.data@ == initialize_mint2_data(authority@, decimals)
        },
{
    let t = Pubkey::new_from_array(token_program.bytes);
    let a = Pubkey::new_from_array(authority.bytes);
    let ix = spl_token::instruction::initialize_mint2(&t, &Pubkey::new_from_array(mint.bytes), &a, None, decimals)?;
    let accounts = ix.accounts.iter().map(
        |m| AccountMeta { address: Address { bytes: m.pubkey.to_bytes() }, is_signer: m.is_signer, is_writable: m.is_writable },
    ).collect();
    Ok(Instruction { program_id: Address { bytes: ix.program_id.to_bytes() }, accounts, data: ix.data })
}

} // verus!
