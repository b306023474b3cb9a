use vstd::prelude::*;
use vstd::slice::slice_to_vec;
use solana_sdk::pubkey::Pubkey;
use vstd::string::{StrSliceExecFns, StringSliceAdditionalSpecFns};
use crate::error::TradeError;

verus! {

/// A 32-byte on-chain account address.
#[derive(Debug, Clone, Copy, PartialEq, Eq)]
pub struct Address {
    pub bytes: [u8; 32],
}

impl View for Address {
    type V = Seq<u8>;

    open spec fn view(&self) -> Seq<u8> {
        self.bytes@
    }
}

/// The byte strings of a seed list.
pub open spec fn seeds_view(seeds: Seq<Vec<u8>>) -> Seq<Seq<u8>> {
    seeds.map_values(|s: Vec<u8>| s@)
}

/// The program-derived address that the bump-seed search finds for a program
/// id and a seed list, if there is one.
pub uninterp spec fn program_address_of(program: Seq<u8>, seeds: Seq<Seq<u8>>) -> Option<Seq<u8>>;

/// Relies on `Pubkey::try_find_program_address`: a hash-based search that
/// depends on the program id and the seeds alone, and yields `None` when no
/// bump seed gives a valid address.
#[verifier::external_body]
fn find_program_address(seeds: &Vec<Vec<u8>>, program: &Address) -> (r: Option<Address>)
    ensures
        match r {
            Some(a) => program_address_of(program@, seeds_view(seeds@)) == Some(a@),
            None => program_address_of(program@, seeds_view(seeds@)) is None,
        },
{
    let refs: Vec<&[u8]> = seeds.iter().map(|s| s.as_slice()).collect();
    Pubkey::try_find_program_address(&refs, &Pubkey::new_from_array(program.bytes))
        .map(|(a, _bump)| Address { bytes: a.to_bytes() })
}

/// Derives the address that `program` owns for the ordered `seeds`.
pub fn derive_address(program: &Address, seeds: &Vec<Vec<u8>>) -> (r: Result<Address, TradeError>)
    ensures
        match r {
            Ok(a) => program_address_of(program@, seeds_view(seeds@)) == Some(a@),
            Err(e) => e == TradeError::AddressDerivation
                && program_address_of(program@, seeds_view(seeds@)) is None,
        },
{
    match find_program_address(seeds, program) {
        Some(a) => Ok(a),
        None => Err(TradeError::AddressDerivation),
    }
}

/// The seed tag of a bonding-curve account.
pub open spec fn bonding_curve_tag() -> Seq<u8> {
    "bonding-curve".spec_bytes()
}

fn bonding_curve_tag_bytes() -> (r: Vec<u8>)
    ensures
        r@ == bonding_curve_tag(),
{
    "bonding-curve".as_bytes_vec()
}

/// The seeds of the bonding-curve account of `mint`.
pub open spec fn bonding_curve_seeds(mint: Seq<u8>) -> Seq<Seq<u8>> {
    seq![bonding_curve_tag(), mint]
}

/// The address of the bonding-curve account of `mint` under `program`.
pub fn bonding_curve_address(program: &Address, mint: &Address) -> (r: Result<Address, TradeError>)
    ensures
        match r {
            Ok(a) => program_address_of(program@, bonding_curve_seeds(mint@)) == Some(a@),
            Err(e) => e == TradeError::AddressDerivation
                && program_address_of(program@, bonding_curve_seeds(mint@)) is None,
        },
{
    let mut seeds: Vec<Vec<u8>> = Vec::new();
    seeds.push(bonding_curve_tag_bytes());
    seeds.push(slice_to_vec(mint.bytes.as_slice()));
    assert(seeds_view(seeds@) =~= bonding_curve_seeds(mint@));
    derive_address(program, &seeds)
}

/// The seed tag of the curve's associated token account.
pub open spec fn associated_bonding_curve_tag() -> Seq<u8> {
    "associated_bonding_curve".spec_bytes()
}

/// The seed tag of the buyer's associated token account.
pub open spec fn associated_user_tag() -> Seq<u8> {
    "associated_user".spec_bytes()
}

/// The seeds of the curve's associated token account for `mint`.
pub open spec fn associated_bonding_curve_seeds(mint: Seq<u8>) -> Seq<Seq<u8>> {
    seq![associated_bonding_curve_tag(), mint]
}

/// The seeds of `owner`'s associated token account for `mint`.
pub open spec fn associated_user_seeds(owner: Seq<u8>, mint: Seq<u8>) -> Seq<Seq<u8>> {
    seq![associated_user_tag(), owner, mint]
}

/// The address of the curve's associated token account for `mint`.
pub fn associated_bonding_curve_address(program: &Address, mint: &Address) -> (r: Result<
    Address,
    TradeError,
>)
    ensures
        match r {
            Ok(a) => program_address_of(program@, associated_bonding_curve_seeds(mint@)) == Some(
                a@,
            ),
            Err(e) => e == TradeError::AddressDerivation && program_address_of(
                program@,
                associated_bonding_curve_seeds(mint@),
            ) is None,
        },
{
    let mut seeds: Vec<Vec<u8>> = Vec::new();
    seeds.push("associated_bonding_curve".as_bytes_vec());
    seeds.push(slice_to_vec(mint.bytes.as_slice()));
    assert(seeds_view(seeds@) =~= associated_bonding_curve_seeds(mint@));
    derive_address(program, &seeds)
}

/// The address of `owner`'s associated token account for `mint`.
pub fn associated_user_address(program: &Address, owner: &Address, mint: &Address) -> (r: Result<
    Address,
    TradeError,
>)
    ensures
        match r {
            Ok(a) => program_address_of(program@, associated_user_seeds(owner@, mint@)) == Some(a@),
            Err(e) => e == TradeError::AddressDerivation && program_address_of(
                program@,
                associated_user_seeds(owner@, mint@),
            ) is None,
        },
{
    let mut seeds: Vec<Vec<u8>> = Vec::new();
    seeds.push("associated_user".as_bytes_vec());
    seeds.push(slice_to_vec(owner.bytes.as_slice()));
    seeds.push(slice_to_vec(mint.bytes.as_slice()));
    assert(seeds_view(seeds@) =~= associated_user_seeds(owner@, mint@));
    derive_address(program, &seeds)
}

/// Derivation is a function of its inputs: equal mints give the same
/// bonding-curve address outcome, and distinct mints give distinct seed
/// lists, so the derivation hashes distinct inputs.
pub proof fn lemma_bonding_curve_derivation(program: Seq<u8>, mint1: Seq<u8>, mint2: Seq<u8>)
    ensures
        mint1 == mint2 ==> program_address_of(program, bonding_curve_seeds(mint1))
            == program_address_of(program, bonding_curve_seeds(mint2)),
        mint1 != mint2 ==> bonding_curve_seeds(mint1) != bonding_curve_seeds(mint2),
{
    if mint1 != mint2 {
        assert(bonding_curve_seeds(mint1)[1] != bonding_curve_seeds(mint2)[1]);
    }
}

/// The fixed address of the bonding-curve program
/// (`6EF8rrecthR5Dkzon8Nwu78hRvfCKubJ14M5uBEwF6P`).
pub struct PumpProgram;

impl PumpProgram {
    /// The program's 32 address bytes.
    pub open spec fn id_spec() -> Seq<u8> {
        seq![
            1u8, 86, 224, 246, 147, 102, 90, 207, 68, 219, 21, 104, 191, 23, 91, 170,
            81, 137, 203, 151, 245, 210, 255, 59, 101, 93, 43, 182, 253, 109, 24, 176,
        ]
    }

    /// The program's address.
    pub fn id() -> (r: Address)
        ensures
            r@ == Self::id_spec(),
    {
        let r = Address {
            bytes: [
                1u8, 86, 224, 246, 147, 102, 90, 207, 68, 219, 21, 104, 191, 23, 91, 170,
                81, 137, 203, 151, 245, 210, 255, 59, 101, 93, 43, 182, 253, 109, 24, 176,
            ],
        };
        assert(r@ =~= Self::id_spec());
        r
    }
}

/// The system program, whose address is all zero bytes.
pub open spec fn system_program_spec() -> Seq<u8> {
    Seq::new(32, |i: int| 0u8)
}

/// The system program's address.
pub fn system_program() -> (r: Address)
    ensures
        r@ == system_program_spec(),
{
    let r = Address { bytes: [0u8; 32] };
    assert(r@ =~= system_program_spec());
    r
}

} // verus!
