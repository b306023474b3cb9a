use vstd::prelude::*;
use vstd::bytes::{spec_u64_from_le_bytes, u64_from_le_bytes};
use vstd::slice::slice_subrange;
use crate::error::TradeError;

verus! {

/// Length of the account discriminator that precedes the curve fields.
pub const DISCRIMINATOR_LEN: usize = 8;

/// Length of a bonding-curve account: discriminator, five `u64`, one flag byte.
pub const ACCOUNT_LEN: usize = 49;

/// A snapshot of a bonding-curve account as stored on chain.
#[derive(Debug, Clone, Copy, PartialEq, Eq, Structural)]
pub struct BondingCurve {
    pub virtual_token_reserves: u64,
    pub virtual_sol_reserves: u64,
    pub real_token_reserves: u64,
    pub real_sol_reserves: u64,
    pub token_total_supply: u64,
    pub complete: bool,
}

/// The little-endian `u64` stored at byte `off` of `data`.
pub open spec fn u64_at(data: Seq<u8>, off: int) -> u64 {
    spec_u64_from_le_bytes(data.subrange(off, off + 8))
}

/// The curve that an account's bytes hold, if they follow the layout: an
/// 8-byte discriminator, five little-endian `u64` and a flag byte that is 0 or 1.
/// Bytes past the flag are ignored.
pub open spec fn decode_spec(data: Seq<u8>) -> Option<BondingCurve> {
    if data.len() < ACCOUNT_LEN || data[48] > 1 {
        None
    } else {
        Some(BondingCurve {
            virtual_token_reserves: u64_at(data, 8),
            virtual_sol_reserves: u64_at(data, 16),
            real_token_reserves: u64_at(data, 24),
            real_sol_reserves: u64_at(data, 32),
            token_total_supply: u64_at(data, 40),
            complete: data[48] == 1,
        })
    }
}

fn read_u64(data: &[u8], off: usize) -> (r: u64)
    requires
        off <= 40,
        ACCOUNT_LEN <= data@.len(),
    ensures
        r == u64_at(data@, off as int),
{
    u64_from_le_bytes(slice_subrange(data, off, off + 8))
}

impl BondingCurve {
    /// Decodes a bonding-curve account, discriminator included.
    pub fn decode(data: &[u8]) -> (r: Result<BondingCurve, TradeError>)
        ensures
            match decode_spec(data@) {
                Some(c) => r == Ok::<BondingCurve, TradeError>(c),
                None => r == Err::<BondingCurve, TradeError>(TradeError::DecodeError),
            },
    {
        if data.len() < ACCOUNT_LEN || data[48] > 1 {
            return Err(TradeError::DecodeError);
        }
        Ok(BondingCurve {
            virtual_token_reserves: read_u64(data, 8),
            virtual_sol_reserves: read_u64(data, 16),
            real_token_reserves: read_u64(data, 24),
            real_sol_reserves: read_u64(data, 32),
            token_total_supply: read_u64(data, 40),
            complete: data[48] == 1,
        })
    }
}

} // verus!
