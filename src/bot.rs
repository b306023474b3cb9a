use vstd::prelude::*;
use crate::address::{bonding_curve_address, bonding_curve_seeds, program_address_of, Address};
use crate::curve::{decode_spec, BondingCurve};
use crate::error::TradeError;
use crate::instruction::{
    build_buy_instruction, buy_derivation_fails, buy_instruction_spec, Instruction,
};
use crate::pricing::{
    ensure_sufficient, max_cost, max_cost_spec, quote, quote_spec, trade_quote, trade_quote_spec,
    TradeQuote,
};

verus! {

/// A buyer on the bonding-curve program: the program's address and the
/// paying wallet's address. Ledger reads are made by the caller and handed in.
#[derive(Debug, Clone, Copy, PartialEq, Eq)]
pub struct PumpBot {
    pub program: Address,
    pub payer: Address,
}

/// The curve that a ledger read yields: `AccountNotFound` when there is no
/// account, `DecodeError` when its bytes do not follow the layout.
pub open spec fn state_spec(account: Option<Vec<u8>>) -> Result<BondingCurve, TradeError> {
    match account {
        None => Err(TradeError::AccountNotFound),
        Some(d) => match decode_spec(d@) {
            Some(c) => Ok(c),
            None => Err(TradeError::DecodeError),
        },
    }
}

/// The expected cost of `amount` tokens given a ledger read of the curve.
pub open spec fn price_spec(account: Option<Vec<u8>>, amount: u64) -> Result<u64, TradeError> {
    match state_spec(account) {
        Ok(c) => quote_spec(c, amount),
        Err(e) => Err(e),
    }
}

impl PumpBot {
    /// A buyer on `program` paying from `payer`.
    pub fn new(program: Address, payer: Address) -> (r: Self)
        ensures
            r.program == program,
            r.payer == payer,
    {
        PumpBot { program, payer }
    }

    /// The address of the bonding-curve account of `mint`.
    pub fn get_bonding_curve_address(&self, mint: &Address) -> (r: Result<Address, TradeError>)
        ensures
            match r {
                Ok(a) => program_address_of(self.program@, bonding_curve_seeds(mint@)) == Some(a@),
                Err(e) => e == TradeError::AddressDerivation && program_address_of(
                    self.program@,
                    bonding_curve_seeds(mint@),
                ) is None,
            },
    {
        bonding_curve_address(&self.program, mint)
    }

    /// Decodes the ledger's read of the bonding-curve account, which is
    /// `None` when the ledger holds no account there.
    pub fn get_bonding_curve_state(&self, account: &Option<Vec<u8>>) -> (r: Result<
        BondingCurve,
        TradeError,
    >)
        ensures
            r == state_spec(*account),
    {
        match account {
            None => Err(TradeError::AccountNotFound),
            Some(d) => BondingCurve::decode(d.as_slice()),
        }
    }

    /// The expected cost in lamports of `amount` tokens, from a ledger read
    /// of the bonding-curve account.
    pub fn calculate_buy_price(&self, account: &Option<Vec<u8>>, amount: u64) -> (r: Result<
        u64,
        TradeError,
    >)
        ensures
            r == price_spec(*account, amount),
    {
        let state = self.get_bonding_curve_state(account)?;
        quote(&state, amount)
    }

    /// The expected and worst-case costs of `amount` tokens within
    /// `slippage_bps`, from a ledger read of the bonding-curve account.
    pub fn quote(&self, account: &Option<Vec<u8>>, amount: u64, slippage_bps: u64) -> (r: Result<
        TradeQuote,
        TradeError,
    >)
        ensures
            match state_spec(*account) {
                Err(e) => r == Err::<TradeQuote, TradeError>(e),
                Ok(c) => r == trade_quote_spec(c, amount, slippage_bps),
            },
    {
        let state = self.get_bonding_curve_state(account)?;
        trade_quote(&state, amount, slippage_bps)
    }

    /// Checks the payer's balance against the cost the trade may reach.
    pub fn check_sol_balance(&self, balance: u64, required_lamports: u64) -> (r: Result<
        (),
        TradeError,
    >)
        ensures
            balance >= required_lamports ==> r is Ok,
            balance < required_lamports ==> r == Err::<(), TradeError>(
                TradeError::InsufficientFunds,
            ),
    {
        ensure_sufficient(balance, required_lamports)
    }

    /// Prepares a buy of `amount` tokens of `mint` within `slippage_bps` of
    /// the quoted cost: quote, worst-case cost, balance check, then the
    /// instruction. The first failing step's error is returned.
    pub fn buy(
        &self,
        mint: &Address,
        amount: u64,
        slippage_bps: u64,
        account: &Option<Vec<u8>>,
        balance: u64,
    ) -> (r: Result<Instruction, TradeError>)
        ensures
            match price_spec(*account, amount) {
                Err(e) => r == Err::<Instruction, TradeError>(e),
                Ok(cost) => match max_cost_spec(cost, slippage_bps) {
                    Err(e) => r == Err::<Instruction, TradeError>(e),
                    Ok(m) => if balance < m {
                        r == Err::<Instruction, TradeError>(TradeError::InsufficientFunds)
                    } else {
                        match r {
                            Ok(i) => buy_instruction_spec(
                                self.program@,
                                self.payer@,
                                mint@,
                                amount,
                                m,
                                i,
                            ),
                            Err(e) => e == TradeError::AddressDerivation && buy_derivation_fails(
                                self.program@,
                                self.payer@,
                                mint@,
                            ),
                        }
                    },
                },
            },
    {
        let expected = self.calculate_buy_price(account, amount)?;
        let max_sol_cost = max_cost(expected, slippage_bps)?;
        self.check_sol_balance(balance, max_sol_cost)?;
        build_buy_instruction(&self.program, &self.payer, mint, amount, max_sol_cost)
    }
}

} // verus!
