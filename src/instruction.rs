use vstd::prelude::*;
use vstd::bytes::{lemma_auto_spec_u64_to_from_le_bytes, spec_u64_to_le_bytes, u64_to_le_bytes};
use vstd::string::StringSliceAdditionalSpecFns;
use crate::address::{
    Address, associated_bonding_curve_address, associated_bonding_curve_seeds,
    associated_user_address, associated_user_seeds, bonding_curve_address, bonding_curve_seeds,
    program_address_of, system_program, system_program_spec,
};
use crate::error::TradeError;

verus! {

/// One account that an instruction touches, with its access flags.
#[derive(Debug, Clone, Copy, PartialEq, Eq)]
pub struct AccountMeta {
    pub pubkey: Address,
    pub is_signer: bool,
    pub is_writable: bool,
}

impl View for AccountMeta {
    type V = (Seq<u8>, bool, bool);

    open spec fn view(&self) -> (Seq<u8>, bool, bool) {
        (self.pubkey@, self.is_signer, self.is_writable)
    }
}

/// A call into an on-chain program: its id, ordered accounts and payload.
#[derive(Debug, Clone, PartialEq, Eq)]
pub struct Instruction {
    pub program_id: Address,
    pub accounts: Vec<AccountMeta>,
    pub data: Vec<u8>,
}

/// The SHA-256 digest of a byte string.
pub uninterp spec fn sha256_of(data: Seq<u8>) -> Seq<u8>;

/// Relies on `solana_sdk::hash::hash`: the 32-byte SHA-256 digest of `data`.
#[verifier::external_body]
fn sha256(data: &[u8]) -> (r: [u8; 32])
    ensures
        r@ == sha256_of(data@),
{
    solana_sdk::hash::hash(data).to_bytes()
}

/// The name whose digest selects the program's buy entry point.
pub open spec fn buy_method_name() -> Seq<u8> {
    "global:buy".spec_bytes()
}

/// The 8-byte selector of the buy entry point: the digest's first 8 bytes.
pub open spec fn buy_selector() -> Seq<u8> {
    sha256_of(buy_method_name()).subrange(0, 8)
}

/// A payload: selector, then amount and maximum cost as little-endian `u64`.
pub open spec fn payload_spec(selector: Seq<u8>, amount: u64, max_cost: u64) -> Seq<u8> {
    selector + spec_u64_to_le_bytes(amount) + spec_u64_to_le_bytes(max_cost)
}

/// Lays out a payload from a method selector, an amount and a maximum cost.
pub fn encode_payload(selector: &[u8], amount: u64, max_cost: u64) -> (r: Vec<u8>)
    ensures
        r@ == payload_spec(selector@, amount, max_cost),
{
    let mut data: Vec<u8> = Vec::new();
    let mut i: usize = 0;
    while i < selector.len()
        invariant
            i <= selector@.len(),
            data@ == selector@.subrange(0, i as int),
        decreases selector@.len() - i,
    {
        data.push(selector[i]);
        i = i + 1;
        assert(data@ =~= selector@.subrange(0, i as int));
    }
    assert(data@ =~= selector@);
    let mut amount_bytes = u64_to_le_bytes(amount);
    let mut cost_bytes = u64_to_le_bytes(max_cost);
    data.append(&mut amount_bytes);
    data.append(&mut cost_bytes);
    data
}

/// The payload of a buy of `amount` tokens paying at most `max_cost` lamports.
pub fn buy_instruction_data(amount: u64, max_cost: u64) -> (r: Vec<u8>)
    ensures
        r@ == payload_spec(buy_selector(), amount, max_cost),
        r@.len() == 24,
{
    let digest = sha256("global:buy".as_bytes());
    let selector = vstd::slice::slice_subrange(digest.as_slice(), 0, 8);
    proof {
        lemma_auto_spec_u64_to_from_le_bytes();
    }
    encode_payload(selector, amount, max_cost)
}

/// The accounts of a buy, in the order the entry point declares them: the
/// bonding curve, its token account and the buyer's token account (all
/// writable), the buyer (signer, writable) and the system program.
pub open spec fn buy_accounts_spec(
    curve: Seq<u8>,
    curve_tokens: Seq<u8>,
    user_tokens: Seq<u8>,
    payer: Seq<u8>,
) -> Seq<(Seq<u8>, bool, bool)> {
    seq![
        (curve, false, true),
        (curve_tokens, false, true),
        (user_tokens, false, true),
        (payer, true, true),
        (system_program_spec(), false, false),
    ]
}

/// The buy instruction for `mint`, on the addresses that `program` derives.
pub open spec fn buy_instruction_spec(
    program: Seq<u8>,
    payer: Seq<u8>,
    mint: Seq<u8>,
    amount: u64,
    max_cost: u64,
    i: Instruction,
) -> bool {
    let curve = program_address_of(program, bonding_curve_seeds(mint));
    let curve_tokens = program_address_of(program, associated_bonding_curve_seeds(mint));
    let user_tokens = program_address_of(program, associated_user_seeds(payer, mint));
    &&& curve is Some
    &&& curve_tokens is Some
    &&& user_tokens is Some
    &&& i.program_id@ == program
    &&& i.accounts@.map_values(|m: AccountMeta| m@) == buy_accounts_spec(
        curve->Some_0,
        curve_tokens->Some_0,
        user_tokens->Some_0,
        payer,
    )
    &&& i.data@ == payload_spec(buy_selector(), amount, max_cost)
}

/// Whether one of the three derivations of a buy finds no address.
pub open spec fn buy_derivation_fails(program: Seq<u8>, payer: Seq<u8>, mint: Seq<u8>) -> bool {
    ||| program_address_of(program, bonding_curve_seeds(mint)) is None
    ||| program_address_of(program, associated_bonding_curve_seeds(mint)) is None
    ||| program_address_of(program, associated_user_seeds(payer, mint)) is None
}

/// Assembles the buy instruction for `mint`, signed and paid for by `payer`.
pub fn build_buy_instruction(
    program: &Address,
    payer: &Address,
    mint: &Address,
    amount: u64,
    max_cost: u64,
) -> (r: Result<Instruction, TradeError>)
    ensures
        match r {
            Ok(i) => buy_instruction_spec(program@, payer@, mint@, amount, max_cost, i),
            Err(e) => e == TradeError::AddressDerivation && buy_derivation_fails(
                program@,
                payer@,
                mint@,
            ),
        },
{
    let curve = bonding_curve_address(program, mint)?;
    let curve_tokens = associated_bonding_curve_address(program, mint)?;
    let user_tokens = associated_user_address(program, payer, mint)?;
    let mut accounts: Vec<AccountMeta> = Vec::new();
    accounts.push(AccountMeta { pubkey: curve, is_signer: false, is_writable: true });
    accounts.push(AccountMeta { pubkey: curve_tokens, is_signer: false, is_writable: true });
    accounts.push(AccountMeta { pubkey: user_tokens, is_signer: false, is_writable: true });
    accounts.push(AccountMeta { pubkey: *payer, is_signer: true, is_writable: true });
    accounts.push(AccountMeta { pubkey: system_program(), is_signer: false, is_writable: false });
    assert(accounts@.map_values(|m: AccountMeta| m@) =~= buy_accounts_spec(
        curve@,
        curve_tokens@,
        user_tokens@,
        payer@,
    ));
    Ok(Instruction { program_id: *program, accounts, data: buy_instruction_data(amount, max_cost) })
}

} // verus!
