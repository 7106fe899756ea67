use std::str::FromStr;

use solana_sdk::pubkey::Pubkey;
use spl_faucet::address::Address;
use spl_faucet::amount::scale_amount;
use spl_faucet::error::FaucetError;
use spl_faucet::faucet::{
    create_init_faucet_ix, faucet_program_id, faucet_seed, get_faucet_pda, pack_init_faucet,
    unpack_init_faucet, FAUCET_ACCOUNT_LEN,
};
use spl_faucet::instruction::{AccountMeta, Instruction};
use spl_faucet::plan::build_mint_and_faucet;

fn addr(b: u8) -> Address {
    Address::new([b; 32])
}

fn le(v: u64) -> Vec<u8> {
    v.to_le_bytes().to_vec()
}

#[test]
fn program_id_matches_base58_text() {
    let expected = Pubkey::from_str("4bXpkKSV8swHSnwqtzuboGPaPDeEgAn4Vt8GfarV5rZt").unwrap();
    assert_eq!(faucet_program_id().bytes, expected.to_bytes());
}

#[test]
fn well_known_program_addresses() {
    let ix = create_init_faucet_ix(addr(1), addr(2), None, 1);
    let rent = Pubkey::from_str("SysvarRent111111111111111111111111111111111").unwrap();
    assert_eq!(ix.accounts[2].address.bytes, rent.to_bytes());
    let (ixs, _, _) = plan_ixs();
    let token = Pubkey::from_str("TokenkegQfeZyiNwAJbNbGKPFXCWuBvf9Ss623VQ5DA").unwrap();
    assert_eq!(ixs[1].program_id.bytes, token.to_bytes());
    let system = Pubkey::from_str("11111111111111111111111111111111").unwrap();
    assert_eq!(ixs[0].program_id.bytes, system.to_bytes());
}

#[test]
fn seed_is_faucet() {
    assert_eq!(faucet_seed(), b"faucet".to_vec());
}

#[test]
fn pda_matches_sdk_derivation() {
    let program = Pubkey::new_from_array(faucet_program_id().bytes);
    let (expected, bump) = Pubkey::find_program_address(&[b"faucet"], &program);
    let (got, got_bump) = get_faucet_pda().unwrap();
    assert_eq!(got.bytes, expected.to_bytes());
    assert_eq!(got_bump, bump);
}

#[test]
fn pda_is_deterministic() {
    assert_eq!(get_faucet_pda(), get_faucet_pda());
}

#[test]
fn pda_is_off_curve_and_not_the_program() {
    let (got, _) = get_faucet_pda().unwrap();
    assert_ne!(got, faucet_program_id());
    assert!(!Pubkey::new_from_array(got.bytes).is_on_curve());
}

#[test]
fn pack_one_billion() {
    assert_eq!(pack_init_faucet(1_000_000_000), vec![0u8, 0x00, 0xCA, 0x9A, 0x3B, 0, 0, 0, 0]);
}

#[test]
fn pack_edges() {
    assert_eq!(pack_init_faucet(0), vec![0u8; 9]);
    assert_eq!(pack_init_faucet(u64::MAX), vec![0u8, 255, 255, 255, 255, 255, 255, 255, 255]);
    assert_eq!(pack_init_faucet(0x0102030405060708), vec![0u8, 8, 7, 6, 5, 4, 3, 2, 1]);
}

#[test]
fn pack_then_unpack_round_trips() {
    for v in [0u64, 1, 255, 256, 1_000_000_000, u64::MAX - 1, u64::MAX] {
        assert_eq!(unpack_init_faucet(&pack_init_faucet(v)), Some(v));
    }
}

#[test]
fn unpack_rejects_other_payloads() {
    assert_eq!(unpack_init_faucet(&[]), None);
    assert_eq!(unpack_init_faucet(&[0u8; 8]), None);
    assert_eq!(unpack_init_faucet(&[0u8; 10]), None);
    assert_eq!(unpack_init_faucet(&[1u8, 0, 0, 0, 0, 0, 0, 0, 0]), None);
}

#[test]
fn init_faucet_ix_without_admin() {
    let ix = create_init_faucet_ix(addr(1), addr(2), None, 42);
    let rent = Address::new(solana_sdk::sysvar::rent::id().to_bytes());
    assert_eq!(ix.program_id, faucet_program_id());
    assert_eq!(
        ix.accounts,
        vec![
            AccountMeta { address: addr(1), is_signer: false, is_writable: false },
            AccountMeta { address: addr(2), is_signer: false, is_writable: true },
            AccountMeta { address: rent, is_signer: false, is_writable: false },
        ]
    );
    let mut data = vec![0u8];
    data.extend(le(42));
    assert_eq!(ix.data, data);
}

#[test]
fn init_faucet_ix_with_admin() {
    let ix = create_init_faucet_ix(addr(1), addr(2), Some(addr(3)), 7);
    assert_eq!(ix.accounts.len(), 4);
    assert_eq!(ix.accounts[3], AccountMeta { address: addr(3), is_signer: false, is_writable: false });
    assert_eq!(ix.accounts.iter().filter(|m| m.is_writable).count(), 1);
    assert!(ix.accounts[1].is_writable);
    assert!(ix.accounts.iter().all(|m| !m.is_signer));
}

#[test]
fn scale_exact_values() {
    assert_eq!(scale_amount(1000, 6), Some(1_000_000_000));
    assert_eq!(scale_amount(5, 0), Some(5));
    assert_eq!(scale_amount(1, 18), Some(1_000_000_000_000_000_000));
    assert_eq!(scale_amount(1, 19), Some(10_000_000_000_000_000_000));
    assert_eq!(scale_amount(u64::MAX, 0), Some(u64::MAX));
    assert_eq!(scale_amount(1_844_674_407_370_955_161, 1), Some(18_446_744_073_709_551_610));
}

#[test]
fn scale_overflow_is_rejected() {
    assert_eq!(scale_amount(1, 20), None);
    assert_eq!(scale_amount(u64::MAX, 1), None);
    assert_eq!(scale_amount(1_844_674_407_370_955_162, 1), None);
    assert_eq!(scale_amount(19, 18), None);
    assert_eq!(scale_amount(18, 18), Some(18_000_000_000_000_000_000));
}

#[test]
fn scale_zero_never_overflows() {
    assert_eq!(scale_amount(0, 255), Some(0));
}

fn plan_ixs() -> (Vec<Instruction>, Vec<Address>, Address) {
    let plan = build_mint_and_faucet(addr(9), addr(1), addr(2), 6, 1000, 1_461_600, 1_426_800).unwrap();
    (plan.instructions, plan.signers, plan.payer)
}

#[test]
fn plan_has_four_instructions_in_order() {
    let (ixs, signers, payer) = plan_ixs();
    let token = Address::new(spl_token::id().to_bytes());
    assert_eq!(payer, addr(9));
    assert_eq!(signers, vec![addr(9), addr(1), addr(2)]);
    assert_eq!(ixs.len(), 4);
    assert_eq!(ixs[0].program_id, Address::new([0u8; 32]));
    assert_eq!(ixs[1].program_id, token);
    assert_eq!(ixs[2].program_id, Address::new([0u8; 32]));
    assert_eq!(ixs[3].program_id, faucet_program_id());
}

#[test]
fn plan_create_mint_account_payload() {
    let (ixs, _, _) = plan_ixs();
    let token = spl_token::id().to_bytes();
    let mut data = vec![0u8, 0, 0, 0];
    data.extend(le(1_461_600));
    data.extend(le(82));
    data.extend(token);
    assert_eq!(ixs[0].data, data);
    assert_eq!(
        ixs[0].accounts,
        vec![
            AccountMeta { address: addr(9), is_signer: true, is_writable: true },
            AccountMeta { address: addr(1), is_signer: true, is_writable: true },
        ]
    );
}

#[test]
fn plan_initialize_mint_uses_derived_authority() {
    let (ixs, _, _) = plan_ixs();
    let (authority, _) = get_faucet_pda().unwrap();
    let mut data = vec![20u8, 6];
    data.extend(authority.bytes);
    data.push(0);
    assert_eq!(ixs[1].data, data);
    assert_eq!(ixs[1].accounts, vec![AccountMeta { address: addr(1), is_signer: false, is_writable: true }]);
}

#[test]
fn plan_create_faucet_account_payload() {
    let (ixs, _, _) = plan_ixs();
    let mut data = vec![0u8, 0, 0, 0];
    data.extend(le(1_426_800));
    data.extend(le(FAUCET_ACCOUNT_LEN as u64));
    data.extend(faucet_program_id().bytes);
    assert_eq!(ixs[2].data, data);
    assert_eq!(ixs[2].accounts[1], AccountMeta { address: addr(2), is_signer: true, is_writable: true });
}

#[test]
fn plan_scales_one_thousand_by_six_decimals_without_admin() {
    let (ixs, _, _) = plan_ixs();
    assert_eq!(unpack_init_faucet(&ixs[3].data), Some(1_000_000_000));
    assert_eq!(ixs[3].accounts.len(), 3);
    assert_eq!(ixs[3].accounts[0].address, addr(1));
    assert_eq!(ixs[3].accounts[1].address, addr(2));
}

#[test]
fn plan_signers_cover_every_signing_account() {
    let (ixs, signers, _) = plan_ixs();
    for ix in &ixs {
        for m in &ix.accounts {
            if m.is_signer {
                assert!(signers.contains(&m.address));
            }
        }
    }
}

#[test]
fn plan_rejects_overflowing_amount() {
    let r = build_mint_and_faucet(addr(9), addr(1), addr(2), 1, u64::MAX, 1, 1);
    assert_eq!(r, Err(FaucetError::AmountOverflow));
    let r = build_mint_and_faucet(addr(9), addr(1), addr(2), 20, 1, 1, 1);
    assert_eq!(r, Err(FaucetError::AmountOverflow));
}

#[test]
fn error_messages_are_descriptive() {
    assert!(!FaucetError::NotYetSupported.message().is_empty());
    assert_ne!(FaucetError::AmountOverflow.message(), FaucetError::NoProgramAddress.message());
}
