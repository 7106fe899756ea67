//! Assembles the instructions that create a mint and its faucet in one
//! atomically executed transaction.
use vstd::prelude::*;

use crate::address::Address;
use crate::amount::{base_units, scale_amount};
use crate::chain::{
    create_account, create_account_data, initialize_mint2, initialize_mint2_data, mint_len,
    system_program_bytes, token_program_bytes, token_program_id,
};
use crate::error::FaucetError;
use crate::faucet::{
    create_init_faucet_ix, faucet_pda_spec, faucet_program_bytes, faucet_program_id,
    get_faucet_pda, init_faucet_accounts, init_faucet_data, is_rent_sysvar_meta,
    FAUCET_ACCOUNT_LEN,
};
use crate::instruction::{writable_meta, Instruction};

verus! {

/// A transaction ready to be signed: the fee payer, the instructions in
/// execution order, and the keys that must sign it.
#[derive(Clone, Debug, PartialEq, Eq)]
pub struct TransactionPlan {
    pub payer: Address,
    pub instructions: Vec<Instruction>,
    pub signers: Vec<Address>,
}

impl TransactionPlan {
    /// Every account that some instruction marks as a signer is among the
    /// signers, and so is the fee payer.
    pub open spec fn signers_cover(&self) -> bool {
        &&& self.signers@.contains(self.payer)
        &&& forall|i: int, j: int|
            0 <= i < self.instructions@.len() && 0 <= j < self.instructions@[i].accounts@.len()
                && #[trigger] self.instructions@[i].accounts@[j].is_signer
                ==> self.signers@.contains(self.instructions@[i].accounts@[j].address)
    }
}

/// Whether `ix` is the system program's instruction by which `from` funds a
/// new account `to` with `lamports`, `space` bytes, owned by the program `owner`.
pub open spec fn is_create_account(
    ix: Instruction,
    from: Address,
    to: Address,
    lamports: u64,
    space: u64,
    owner: Seq<u8>,
) -> bool {
    &&& ix.program_id@ == system_program_bytes()
    &&& ix.accounts@ == seq![writable_meta(from, true), writable_meta(to, true)]
    &&& ix.data@ == create_account_data(lamports, space, owner)
}

/// Whether `ix` is the token program's instruction that initializes `mint`
/// with `decimals` decimal places, mint authority `authority` and no freeze
/// authority.
pub open spec fn is_initialize_mint(ix: Instruction, mint: Address, authority: Seq<u8>, decimals: u8) -> bool {
    &&& ix.program_id@ == token_program_bytes()
    &&& ix.accounts@ == seq![writable_meta(mint, false)]
    &&& ix.data@ == initialize_mint2_data(authority, decimals)
}

/// Whether `ix` is the faucet program's instruction that initializes `faucet`
/// for `mint` with `amount` base units and no admin.
pub open spec fn is_init_faucet(ix: Instruction, mint: Address, faucet: Address, amount: u64) -> bool {
    &&& ix.program_id@ == faucet_program_bytes()
    &&& ix.data@ == init_faucet_data(amount)
    &&& is_rent_sysvar_meta(ix.accounts@[2])
    &&& ix.accounts@ == init_faucet_accounts(mint, faucet, ix.accounts@[2].address, None)
}

/// Builds the transaction that creates a mint and its faucet: create the mint
/// account, initialize the mint with the faucet program's derived address as
/// its authority, create the faucet account, and initialize the faucet with
/// `ui_amount * 10^decimals` base units. `mint_rent` and `faucet_rent` are the
/// rent-exempt balances of the two new accounts; `payer` funds them and pays
/// the fee, and the transaction must be signed by the payer and by the keys of
/// both new accounts.
pub fn build_mint_and_faucet(
    payer: Address,
    mint: Address,
    faucet: Address,
    decimals: u8,
    ui_amount: u64,
    mint_rent: u64,
    faucet_rent: u64,
) -> (r: Result<TransactionPlan, FaucetError>)
    ensures
        r == Err::<TransactionPlan, FaucetError>(FaucetError::NoProgramAddress) <==> faucet_pda_spec() is None,
        r == Err::<TransactionPlan, FaucetError>(FaucetError::AmountOverflow) <==> faucet_pda_spec() is Some
            && base_units(ui_amount, decimals) > u64::MAX,
        r is Ok <==> faucet_pda_spec() is Some && base_units(ui_amount, decimals) <= u64::MAX,
        r matches Ok(plan) ==> {
            &&& plan.payer == payer
            &&& plan.signers@ == seq![payer, mint, faucet]
            &&& plan.signers_cover()
            &&& plan.instructions@.len() == 4
            &&& is_create_account(plan.instructions@[0], payer, mint, mint_rent, 82, token_program_bytes())
            &&& is_initialize_mint(plan.instructions@[1], mint, faucet_pda_spec().unwrap().0, decimals)
            &&& is_create_account(plan.instructions@[2], payer, faucet, faucet_rent, FAUCET_ACCOUNT_LEN as u64, faucet_program_bytes())
            &&& is_init_faucet(plan.instructions@[3], mint, faucet, base_units(ui_amount, decimals) as u64)
        },
{
    let authority = match get_faucet_pda() {
        Ok((a, _bump)) => a,
        Err(e) => return Err(e),
    };
    let amount = match scale_amount(ui_amount, decimals) {
        Some(v) => v,
        None => return Err(FaucetError::AmountOverflow),
    };
    let token_program = token_program_id();
    let create_mint = create_account(payer, mint, mint_rent, mint_len() as u64, token_program);
    let init_mint = match initialize_mint2(token_program, mint, authority, decimals) {
        Ok(ix) => ix,
        Err(_) => return Err(FaucetError::IncorrectProgramId),
    };
    let create_faucet = create_account(
        payer,
        faucet,
        faucet_rent,
        FAUCET_ACCOUNT_LEN as u64,
        faucet_program_id(),
    );
    let init_faucet = create_init_faucet_ix(mint, faucet, None, amount);
    let instructions = vec![create_mint, init_mint, create_faucet, init_faucet];
    let signers = vec![payer, mint, faucet];
    let plan = TransactionPlan { payer, instructions, signers };
    assert(plan.signers@.contains(payer)) by {
        assert(plan.signers@[0] == payer);
    }
    assert forall|i: int, j: int|
        0 <= i < plan.instructions@.len() && 0 <= j < plan.instructions@[i].accounts@.len()
            && #[trigger] plan.instructions@[i].accounts@[j].is_signer
            implies plan.signers@.contains(plan.instructions@[i].accounts@[j].address) by {
        if i == 0 {
            if j == 0 {
                assert(plan.signers@[0] == payer);
            } else {
                assert(plan.signers@[1] == mint);
            }
        } else if i == 2 {
            if j == 0 {
                assert(plan.signers@[0] == payer);
            } else {
                assert(plan.signers@[2] == faucet);
            }
        }
    }
    Ok(plan)
}

} // verus!
