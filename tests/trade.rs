use std::str::FromStr;

use deepseekbot::address::{
    associated_bonding_curve_address, associated_user_address, bonding_curve_address, derive_address,
    system_program, Address, PumpProgram,
};
use deepseekbot::bot::PumpBot;
use deepseekbot::curve::BondingCurve;
use deepseekbot::error::TradeError;
use deepseekbot::instruction::{buy_instruction_data, encode_payload};
use solana_sdk::pubkey::Pubkey;

fn addr(fill: u8) -> Address {
    Address { bytes: [fill; 32] }
}

fn pda(seeds: &[&[u8]], program: &Address) -> Address {
    let (a, _) = Pubkey::find_program_address(seeds, &Pubkey::new_from_array(program.bytes));
    Address { bytes: a.to_bytes() }
}

fn account_bytes(tok: u64, sol: u64, complete: u8) -> Vec<u8> {
    let mut d = vec![7u8; 8];
    d.extend_from_slice(&tok.to_le_bytes());
    d.extend_from_slice(&sol.to_le_bytes());
    d.extend_from_slice(&3u64.to_le_bytes());
    d.extend_from_slice(&4u64.to_le_bytes());
    d.extend_from_slice(&5u64.to_le_bytes());
    d.push(complete);
    d
}

#[test]
fn program_id_matches_base58() {
    let expected = Pubkey::from_str("6EF8rrecthR5Dkzon8Nwu78hRvfCKubJ14M5uBEwF6P").unwrap();
    assert_eq!(PumpProgram::id().bytes, expected.to_bytes());
    assert_eq!(system_program().bytes, Pubkey::from_str("11111111111111111111111111111111").unwrap().to_bytes());
}

#[test]
fn bonding_curve_address_is_the_program_address() {
    let program = PumpProgram::id();
    let mint = addr(9);
    let a = bonding_curve_address(&program, &mint).unwrap();
    assert_eq!(a, pda(&[b"bonding-curve", &mint.bytes], &program));
    assert_ne!(a, mint);
}

#[test]
fn derivation_is_deterministic() {
    let program = PumpProgram::id();
    let mint = addr(42);
    let a = bonding_curve_address(&program, &mint).unwrap();
    let b = bonding_curve_address(&program, &mint).unwrap();
    assert_eq!(a, b);
    let seeds = vec![b"bonding-curve".to_vec(), mint.bytes.to_vec()];
    assert_eq!(derive_address(&program, &seeds).unwrap(), a);
}

#[test]
fn distinct_mints_give_distinct_addresses() {
    let program = PumpProgram::id();
    let a = bonding_curve_address(&program, &addr(1)).unwrap();
    let b = bonding_curve_address(&program, &addr(2)).unwrap();
    assert_ne!(a, b);
}

#[test]
fn associated_addresses() {
    let program = PumpProgram::id();
    let mint = addr(5);
    let owner = addr(6);
    assert_eq!(
        associated_bonding_curve_address(&program, &mint).unwrap(),
        pda(&[b"associated_bonding_curve", &mint.bytes], &program)
    );
    assert_eq!(
        associated_user_address(&program, &owner, &mint).unwrap(),
        pda(&[b"associated_user", &owner.bytes, &mint.bytes], &program)
    );
}

#[test]
fn derive_fails_on_too_many_seeds() {
    let seeds: Vec<Vec<u8>> = (0..16u8).map(|i| vec![i]).collect();
    assert_eq!(derive_address(&PumpProgram::id(), &seeds), Err(TradeError::AddressDerivation));
}

#[test]
fn decode_account() {
    let c = BondingCurve::decode(&account_bytes(1000, 10, 1)).unwrap();
    assert_eq!(c.virtual_token_reserves, 1000);
    assert_eq!(c.virtual_sol_reserves, 10);
    assert_eq!(c.real_token_reserves, 3);
    assert_eq!(c.real_sol_reserves, 4);
    assert_eq!(c.token_total_supply, 5);
    assert!(c.complete);
    let mut longer = account_bytes(1000, 10, 0);
    longer.extend_from_slice(&[1, 2, 3]);
    assert!(!BondingCurve::decode(&longer).unwrap().complete);
}

#[test]
fn decode_rejects_bad_layout() {
    let d = account_bytes(1000, 10, 0);
    assert_eq!(BondingCurve::decode(&d[..48]), Err(TradeError::DecodeError));
    assert_eq!(BondingCurve::decode(&[]), Err(TradeError::DecodeError));
    assert_eq!(BondingCurve::decode(&account_bytes(1000, 10, 2)), Err(TradeError::DecodeError));
}

#[test]
fn missing_account_is_reported() {
    let bot = PumpBot::new(PumpProgram::id(), addr(1));
    assert_eq!(bot.get_bonding_curve_state(&None), Err(TradeError::AccountNotFound));
    assert_eq!(bot.calculate_buy_price(&None, 1), Err(TradeError::AccountNotFound));
    assert_eq!(
        bot.buy(&addr(2), 1, 100, &None, u64::MAX),
        Err(TradeError::AccountNotFound)
    );
}

#[test]
fn price_from_account_bytes() {
    let bot = PumpBot::new(PumpProgram::id(), addr(1));
    assert_eq!(bot.calculate_buy_price(&Some(account_bytes(1000, 10, 0)), 1), Ok(0));
    assert_eq!(
        bot.calculate_buy_price(&Some(account_bytes(1000, 10, 1)), 1),
        Err(TradeError::CurveComplete)
    );
    assert_eq!(
        bot.calculate_buy_price(&Some(vec![0u8; 10]), 1),
        Err(TradeError::DecodeError)
    );
}

#[test]
fn payload_layout() {
    let data = encode_payload(&[1, 2, 3, 4, 5, 6, 7, 8], 0x0102, 0x0a0b0c);
    assert_eq!(
        data,
        vec![1, 2, 3, 4, 5, 6, 7, 8, 0x02, 0x01, 0, 0, 0, 0, 0, 0, 0x0c, 0x0b, 0x0a, 0, 0, 0, 0, 0]
    );
}

#[test]
fn buy_payload_starts_with_method_selector() {
    let digest = solana_sdk::hash::hash(b"global:buy").to_bytes();
    let data = buy_instruction_data(1_000, 2_000);
    assert_eq!(data.len(), 24);
    assert_eq!(&data[..8], &digest[..8]);
    assert_eq!(&data[8..16], &1_000u64.to_le_bytes());
    assert_eq!(&data[16..], &2_000u64.to_le_bytes());
}

#[test]
fn buy_builds_instruction() {
    let program = PumpProgram::id();
    let payer = addr(1);
    let mint = addr(2);
    let bot = PumpBot::new(program, payer);
    let i = bot.buy(&mint, 1, 100, &Some(account_bytes(1000, 10, 0)), 0).unwrap();
    assert_eq!(i.program_id, program);
    assert_eq!(i.data, buy_instruction_data(1, 0));
    let keys: Vec<Address> = i.accounts.iter().map(|m| m.pubkey).collect();
    assert_eq!(
        keys,
        vec![
            bot.get_bonding_curve_address(&mint).unwrap(),
            associated_bonding_curve_address(&program, &mint).unwrap(),
            associated_user_address(&program, &payer, &mint).unwrap(),
            payer,
            system_program(),
        ]
    );
    let flags: Vec<(bool, bool)> = i.accounts.iter().map(|m| (m.is_signer, m.is_writable)).collect();
    assert_eq!(flags, vec![(false, true), (false, true), (false, true), (true, true), (false, false)]);
}

#[test]
fn buy_checks_balance_against_worst_case() {
    let bot = PumpBot::new(PumpProgram::id(), addr(1));
    // 10 sol reserves, 1000 tokens; quoting 1 token costs 0, so any balance passes.
    assert!(bot.buy(&addr(2), 1, 100, &Some(account_bytes(1000, 10, 0)), 0).is_ok());
    assert_eq!(bot.check_sol_balance(5, 6), Err(TradeError::InsufficientFunds));
    assert_eq!(bot.check_sol_balance(6, 6), Ok(()));
}

#[test]
fn bot_quote_from_account_bytes() {
    let bot = PumpBot::new(PumpProgram::id(), addr(1));
    let q = bot.quote(&Some(account_bytes(1000, 10, 0)), 1, 250).unwrap();
    assert_eq!((q.expected_cost, q.max_cost), (0, 0));
    assert_eq!(bot.quote(&None, 1, 250), Err(TradeError::AccountNotFound));
}
