use vstd::prelude::*;
use vstd::arithmetic::div_mod::{lemma_div_is_ordered, lemma_fundamental_div_mod};
use vstd::arithmetic::mul::lemma_mul_inequality;
use crate::curve::BondingCurve;
use crate::error::TradeError;

verus! {

/// Basis points in one whole.
pub const BPS_DENOMINATOR: u64 = 10000;

/// The constant product `k` of a curve's virtual reserves.
pub open spec fn product(state: BondingCurve) -> int {
    state.virtual_sol_reserves * state.virtual_token_reserves
}

/// The quote of `amount` tokens against `state`: the virtual SOL reserves less
/// `k / (virtual_token_reserves - amount)`, with each failing step named.
pub open spec fn quote_spec(state: BondingCurve, amount: u64) -> Result<u64, TradeError> {
    let sol = state.virtual_sol_reserves as int;
    let tok = state.virtual_token_reserves as int;
    if state.complete {
        Err(TradeError::CurveComplete)
    } else if amount == 0 {
        Err(TradeError::InvalidAmount)
    } else if product(state) > u64::MAX {
        Err(TradeError::Overflow)
    } else if amount >= tok {
        Err(TradeError::InsufficientTokenReserves)
    } else if product(state) / (tok - amount) > sol {
        Err(TradeError::PriceUnderflow)
    } else {
        Ok((sol - product(state) / (tok - amount)) as u64)
    }
}

/// Prices a buy of `amount` tokens against `state` with checked integer
/// arithmetic. The division step keeps its own error, though once the
/// reserve check has passed its divisor is positive.
pub fn quote(state: &BondingCurve, amount: u64) -> (r: Result<u64, TradeError>)
    ensures
        r == quote_spec(*state, amount),
{
    if state.complete {
        return Err(TradeError::CurveComplete);
    }
    if amount == 0 {
        return Err(TradeError::InvalidAmount);
    }
    let k = match state.virtual_sol_reserves.checked_mul(state.virtual_token_reserves) {
        Some(k) => k,
        None => return Err(TradeError::Overflow),
    };
    if amount >= state.virtual_token_reserves {
        return Err(TradeError::InsufficientTokenReserves);
    }
    let new_token_reserves = state.virtual_token_reserves - amount;
    let ratio = match k.checked_div(new_token_reserves) {
        Some(q) => q,
        None => return Err(TradeError::DivisionByZero),
    };
    match state.virtual_sol_reserves.checked_sub(ratio) {
        Some(cost) => Ok(cost),
        None => Err(TradeError::PriceUnderflow),
    }
}

/// The worst-case cost: `expected + expected * slippage_bps / 10000`, or
/// `Overflow` when a step leaves the `u64` range.
pub open spec fn max_cost_spec(expected: u64, slippage_bps: u64) -> Result<u64, TradeError> {
    let extra = expected * slippage_bps;
    if extra > u64::MAX || expected + extra / (BPS_DENOMINATOR as int) > u64::MAX {
        Err(TradeError::Overflow)
    } else {
        Ok((expected + extra / (BPS_DENOMINATOR as int)) as u64)
    }
}

/// Adds the slippage tolerance to an expected cost.
pub fn max_cost(expected: u64, slippage_bps: u64) -> (r: Result<u64, TradeError>)
    ensures
        r == max_cost_spec(expected, slippage_bps),
{
    let extra = match expected.checked_mul(slippage_bps) {
        Some(e) => e,
        None => return Err(TradeError::Overflow),
    };
    match expected.checked_add(extra / BPS_DENOMINATOR) {
        Some(m) => Ok(m),
        None => Err(TradeError::Overflow),
    }
}

/// A priced trade: the expected cost and the worst-case cost the chain is
/// told to accept, both in lamports.
#[derive(Debug, Clone, Copy, PartialEq, Eq, Structural)]
pub struct TradeQuote {
    pub expected_cost: u64,
    pub max_cost: u64,
}

/// The quote of `amount` tokens against `state` within `slippage_bps`.
pub open spec fn trade_quote_spec(state: BondingCurve, amount: u64, slippage_bps: u64) -> Result<
    TradeQuote,
    TradeError,
> {
    match quote_spec(state, amount) {
        Err(e) => Err(e),
        Ok(cost) => match max_cost_spec(cost, slippage_bps) {
            Err(e) => Err(e),
            Ok(m) => Ok(TradeQuote { expected_cost: cost, max_cost: m }),
        },
    }
}

/// Prices a buy and its worst-case cost.
pub fn trade_quote(state: &BondingCurve, amount: u64, slippage_bps: u64) -> (r: Result<
    TradeQuote,
    TradeError,
>)
    ensures
        r == trade_quote_spec(*state, amount, slippage_bps),
{
    let expected_cost = quote(state, amount)?;
    let max_cost = max_cost(expected_cost, slippage_bps)?;
    Ok(TradeQuote { expected_cost, max_cost })
}

/// Checks a balance against the cost a trade may reach.
pub fn ensure_sufficient(balance: u64, required: u64) -> (r: Result<(), TradeError>)
    ensures
        balance >= required ==> r is Ok,
        balance < required ==> r == Err::<(), TradeError>(TradeError::InsufficientFunds),
{
    if balance < required {
        Err(TradeError::InsufficientFunds)
    } else {
        Ok(())
    }
}

/// Constant-product identity up to the one truncation of integer division:
/// whenever a quote succeeds, `(R_sol - cost) * (R_tok - amount)` is at most
/// `R_sol * R_tok`, and one more unit of `R_sol - cost` would exceed it.
pub proof fn lemma_quote_constant_product(state: BondingCurve, amount: u64)
    requires
        quote_spec(state, amount) is Ok,
    ensures
        ({
            let cost = quote_spec(state, amount)->Ok_0 as int;
            let sol = state.virtual_sol_reserves as int;
            let tok = state.virtual_token_reserves as int;
            &&& (sol - cost) * (tok - amount) <= sol * tok
            &&& sol * tok < (sol - cost + 1) * (tok - amount)
        }),
{
    let tok = state.virtual_token_reserves as int;
    let d = tok - amount;
    let k = product(state);
    lemma_fundamental_div_mod(k, d);
    assert((k / d) * d <= k < (k / d + 1) * d) by (nonlinear_arith)
        requires
            k == d * (k / d) + k % d,
            0 <= k % d < d,
    ;
}

/// A quote of at least the whole virtual token reserve fails with
/// `InsufficientTokenReserves` on an active curve, for a non-zero amount whose
/// reserves product fits in 64 bits.
pub proof fn lemma_quote_exhausting_reserves(state: BondingCurve, amount: u64)
    requires
        !state.complete,
        amount > 0,
        product(state) <= u64::MAX,
        amount >= state.virtual_token_reserves,
    ensures
        quote_spec(state, amount) == Err::<u64, TradeError>(TradeError::InsufficientTokenReserves),
{
}

/// A quote on an active curve whose reserves product exceeds 64 bits fails
/// with `Overflow`, for any non-zero amount.
pub proof fn lemma_quote_product_overflow(state: BondingCurve, amount: u64)
    requires
        !state.complete,
        amount > 0,
        product(state) > u64::MAX,
    ensures
        quote_spec(state, amount) == Err::<u64, TradeError>(TradeError::Overflow),
{
}

/// A quote on a graduated curve is refused.
pub proof fn lemma_quote_complete_curve(state: BondingCurve, amount: u64)
    requires
        state.complete,
    ensures
        quote_spec(state, amount) == Err::<u64, TradeError>(TradeError::CurveComplete),
{
}

/// The worst-case cost does not decrease as the slippage tolerance grows:
/// where the larger tolerance gives a bound, the smaller one gives one too, and
/// it is no larger.
pub proof fn lemma_max_cost_monotonic(expected: u64, bps1: u64, bps2: u64)
    requires
        bps1 <= bps2,
        max_cost_spec(expected, bps2) is Ok,
    ensures
        max_cost_spec(expected, bps1) is Ok,
        max_cost_spec(expected, bps1)->Ok_0 <= max_cost_spec(expected, bps2)->Ok_0,
{
    lemma_mul_inequality(bps1 as int, bps2 as int, expected as int);
    assert(expected * bps1 <= expected * bps2) by (nonlinear_arith)
        requires
            bps1 * expected <= bps2 * expected,
    ;
    lemma_div_is_ordered(expected * bps1, expected * bps2, BPS_DENOMINATOR as int);
}

/// With no slippage tolerance the worst-case cost is the expected cost.
pub proof fn lemma_max_cost_zero_slippage(expected: u64)
    ensures
        max_cost_spec(expected, 0) == Ok::<u64, TradeError>(expected),
{
}

} // verus!
