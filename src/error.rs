use vstd::prelude::*;

verus! {

/// Why a trade could not be priced or prepared.
#[derive(Debug, Clone, Copy, PartialEq, Eq, Structural)]
pub enum TradeError {
    /// The requested token amount is zero.
    InvalidAmount,
    /// No program-derived address exists for the seeds.
    AddressDerivation,
    /// The ledger holds no account at the bonding-curve address.
    AccountNotFound,
    /// The account bytes do not follow the bonding-curve layout.
    DecodeError,
    /// The curve has graduated: this pricing path no longer applies.
    CurveComplete,
    /// A product or a sum left the 64-bit range.
    Overflow,
    /// The amount would use up the curve's virtual token reserves.
    InsufficientTokenReserves,
    /// The divisor of the price computation was zero.
    DivisionByZero,
    /// The price subtraction went below zero.
    PriceUnderflow,
    /// The payer's balance is below the worst-case cost.
    InsufficientFunds,
}

} // verus!
