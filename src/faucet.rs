//! The faucet program's interface: its address, the mint authority it
//! derives, and the instruction that initializes a faucet account.
use vstd::prelude::*;

use crate::address::Address;
use crate::chain::{pda_search, pda_view, rent_sysvar_bytes, rent_sysvar_id, try_find_pda};
use crate::error::FaucetError;
use crate::instruction::{
    le_bytes, le_value, lemma_le_round_trip, push_le_u64, read_le_u64, readonly_meta,
    writable_meta, AccountMeta, Instruction,
};

verus! {

/// The size in bytes of a faucet account: an initialized flag, an optional
/// admin (a four-byte tag and an address), the mint, and the amount.
pub const FAUCET_ACCOUNT_LEN: usize = 77;

/// The tag of the faucet program's initialize instruction.
pub const INIT_FAUCET_TAG: u8 = 0;

/// The faucet program's address.
pub open spec fn faucet_program_bytes() -> Seq<u8> {
    seq![
        53u8, 107, 169, 3, 226, 165, 0, 162, 108, 41, 106, 83, 126, 189, 112, 29,
        235, 213, 220, 234, 238, 208, 149, 34, 104, 200, 65, 34, 134, 138, 195, 151,
    ]
}

/// The seed from which the faucet program derives its mint authority: "faucet".
pub open spec fn faucet_seed_bytes() -> Seq<u8> {
    seq![102u8, 97, 117, 99, 101, 116]
}

/// The faucet program's address.
pub fn faucet_program_id() -> (r: Address)
    ensures
        r@ == faucet_program_bytes(),
{
    let r = Address {
        bytes: [
            53u8, 107, 169, 3, 226, 165, 0, 162, 108, 41, 106, 83, 126, 189, 112, 29,
            235, 213, 220, 234, 238, 208, 149, 34, 104, 200, 65, 34, 134, 138, 195, 151,
        ],
    };
    assert(r@ =~= faucet_program_bytes());
    r
}

/// The seed "faucet".
pub fn faucet_seed() -> (r: Vec<u8>)
    ensures
        r@ == faucet_seed_bytes(),
{
    let r = vec![102u8, 97, 117, 99, 101, 116];
    assert(r@ =~= faucet_seed_bytes());
    r
}

/// What deriving the faucet program's mint authority gives: the address and
/// bump byte found for the seed "faucet" under the faucet program.
pub open spec fn faucet_pda_spec() -> Option<(Seq<u8>, u8)> {
    pda_search(faucet_seed_bytes(), faucet_program_bytes())
}

/// Derives the faucet program's mint authority: the program address for the
/// seed "faucet", with its bump byte.
pub fn get_faucet_pda() -> (r: Result<(Address, u8), FaucetError>)
    ensures
        r is Err <==> faucet_pda_spec() is None,
        r matches Err(e) ==> e == FaucetError::NoProgramAddress,
        r matches Ok((a, bump)) ==> faucet_pda_spec() == Some((a@, bump)),
{
    let seed = faucet_seed();
    let program = faucet_program_id();
    match try_find_pda(seed.as_slice(), &program) {
        Some(found) => Ok(found),
        None => Err(FaucetError::NoProgramAddress),
    }
}

/// Deriving the mint authority twice gives the same address and bump byte,
/// or fails both times.
pub proof fn lemma_faucet_pda_deterministic(
    r1: Result<(Address, u8), FaucetError>,
    r2: Result<(Address, u8), FaucetError>,
)
    requires
        r1 is Err <==> faucet_pda_spec() is None,
        r1 matches Err(e) ==> e == FaucetError::NoProgramAddress,
        r1 matches Ok((a, bump)) ==> faucet_pda_spec() == Some((a@, bump)),
        r2 is Err <==> faucet_pda_spec() is None,
        r2 matches Err(e) ==> e == FaucetError::NoProgramAddress,
        r2 matches Ok((a, bump)) ==> faucet_pda_spec() == Some((a@, bump)),
    ensures
        r1 == r2,
{
    if let Ok((a1, b1)) = r1 {
        if let Ok((a2, b2)) = r2 {
            assert(a1.bytes@ =~= a2.bytes@);
            assert(a1.bytes == a2.bytes);
        }
    }
}

/// The payload of the initialize-faucet instruction: its tag, then the
/// amount's eight little-endian bytes.
pub open spec fn init_faucet_data(amount: u64) -> Seq<u8> {
    seq![INIT_FAUCET_TAG] + le_bytes(amount)
}

/// Encodes the initialize-faucet instruction for `amount` base units.
pub fn pack_init_faucet(amount: u64) -> (r: Vec<u8>)
    ensures
        r@ == init_faucet_data(amount),
        r@.len() == 9,
{
    let mut r: Vec<u8> = Vec::new();
    r.push(INIT_FAUCET_TAG);
    push_le_u64(&mut r, amount);
    assert(r@ =~= init_faucet_data(amount));
    r
}

/// What an initialize-faucet payload decodes to: nine bytes, the tag, then
/// the amount in little-endian order.
pub open spec fn decode_init_faucet(data: Seq<u8>) -> Option<u64> {
    if data.len() == 9 && data[0] == INIT_FAUCET_TAG {
        Some(le_value(data.drop_first()))
    } else {
        None
    }
}

/// Decodes an initialize-faucet payload.
pub fn unpack_init_faucet(data: &[u8]) -> (r: Option<u64>)
    ensures
        r == decode_init_faucet(data@),
{
    if data.len() != 9 || data[0] != INIT_FAUCET_TAG {
        return None;
    }
    let rest = vstd::slice::slice_subrange(data, 1, 9);
    assert(rest@ =~= data@.drop_first());
    Some(read_le_u64(rest))
}

/// Decoding the encoded initialize-faucet payload of any amount recovers
/// that amount exactly.
pub proof fn lemma_init_faucet_round_trip(amount: u64)
    ensures
        decode_init_faucet(init_faucet_data(amount)) == Some(amount),
{
    assert(init_faucet_data(amount).drop_first() =~= le_bytes(amount));
    lemma_le_round_trip(amount);
}

/// Whether `m` is the read-only, non-signing entry of the rent sysvar.
pub open spec fn is_rent_sysvar_meta(m: AccountMeta) -> bool {
    &&& m.address@ == rent_sysvar_bytes()
    &&& !m.is_signer
    &&& !m.is_writable
}

/// The account list of the initialize-faucet instruction, in the order the
/// program reads it: the mint (read-only), the faucet account (writable), the
/// rent sysvar `rent` (read-only), and the admin if one is given (read-only);
/// none of them signs.
pub open spec fn init_faucet_accounts(
    mint: Address,
    faucet: Address,
    rent: Address,
    admin: Option<Address>,
) -> Seq<AccountMeta> {
    let base = seq![readonly_meta(mint, false), writable_meta(faucet, false), readonly_meta(rent, false)];
    match admin {
        Some(a) => base.push(readonly_meta(a, false)),
        None => base,
    }
}

/// Builds the faucet program's instruction that initializes `faucet_account`
/// for `mint_account`, able to dispense up to `amount` base units, with an
/// optional admin.
pub fn create_init_faucet_ix(
    mint_account: Address,
    faucet_account: Address,
    admin: Option<Address>,
    amount: u64,
) -> (r: Instruction)
    ensures
        r.program_id@ == faucet_program_bytes(),
        r.data@ == init_faucet_data(amount),
        is_rent_sysvar_meta(r.accounts@[2]),
        r.accounts@ == init_faucet_accounts(mint_account, faucet_account, r.accounts@[2].address, admin),
        r.accounts@.len() == if admin is Some { 4int } else { 3int },
        forall|i: int| 0 <= i < r.accounts@.len() ==> (r.accounts@[i].is_writable <==> i == 1),
        forall|i: int| 0 <= i < r.accounts@.len() ==> !r.accounts@[i].is_signer,
{
    let rent = rent_sysvar_id();
    let mut accounts: Vec<AccountMeta> = vec![
        AccountMeta::new_readonly(mint_account, false),
        AccountMeta::new(faucet_account, false),
        AccountMeta::new_readonly(rent, false),
    ];
    if let Some(a) = admin {
        accounts.push(AccountMeta::new_readonly(a, false));
    }
    assert(accounts@ =~= init_faucet_accounts(mint_account, faucet_account, rent, admin));
    Instruction { program_id: faucet_program_id(), accounts, data: pack_init_faucet(amount) }
}

} // verus!
