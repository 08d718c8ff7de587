//! Deterministic account addresses.
//!
//! An [`Address`] is a fixed 32-byte identifier. Program-owned addresses are
//! derived from seed bytes plus an owning program id by the chain's canonical
//! bump-search algorithm; the search itself is performed by the Solana SDK
//! and its outcome is named by the uninterpreted function [`pda_of`], so
//! every contract in the crate can speak of "the derived address" without
//! restating the hash chain.

use vstd::prelude::*;
use crate::PumpError;

verus! {

broadcast use vstd::array::group_array_axioms;

/// A 32-byte account identifier: either a wallet address or a
/// program-derived address for which no private key exists.
#[derive(Clone, Copy, Debug, PartialEq, Eq)]
pub struct Address {
    pub bytes: [u8; 32],
}

impl View for Address {
    type V = Seq<u8>;

    open spec fn view(&self) -> Seq<u8> {
        self.bytes@
    }
}

impl Address {
    /// Wraps raw bytes as an address.
    pub fn new(bytes: [u8; 32]) -> (r: Address)
        ensures
            r@ == bytes@,
    {
        Address { bytes }
    }

    /// The raw bytes of the address.
    pub fn to_bytes(&self) -> (r: [u8; 32])
        ensures
            r@ == self@,
    {
        self.bytes
    }

    /// The bytes of the address as a freshly allocated vector.
    pub fn to_vec(&self) -> (r: Vec<u8>)
        ensures
            r@ == self@,
    {
        vstd::slice::slice_to_vec(self.bytes.as_slice())
    }
}

/// The address that the canonical bump-search derivation assigns to the
/// given seed sequence under the given owning program, or `None` when the
/// bounded search space holds no valid address. The derivation is a pure
/// function of its inputs; this name stands for its outcome.
pub uninterp spec fn pda_of(seeds: Seq<Seq<u8>>, program: Seq<u8>) -> Option<Seq<u8>>;

/// The byte sequences held by a vector of seed vectors.
pub open spec fn seeds_view(seeds: Seq<Vec<u8>>) -> Seq<Seq<u8>> {
    seeds.map_values(|s: Vec<u8>| s@)
}

/// Relies on `solana_sdk`'s `Pubkey::try_find_program_address`: the
/// canonical repeated-hash bump search. Its result is a pure function of
/// the seed bytes and the owning program id, and it returns `None` exactly
/// when the bounded search finds no valid address.
#[verifier::external_body]
fn find_program_address(seeds: &Vec<Vec<u8>>, program: &Address) -> (r: Option<Address>)
    ensures
        r is Some <==> pda_of(seeds_view(seeds@), program@) is Some,
        r is Some ==> r.unwrap()@ == pda_of(seeds_view(seeds@), program@).unwrap(),
{
    let seed_refs: Vec<&[u8]> = seeds.iter().map(|s| s.as_slice()).collect();
    let program_id = solana_sdk::pubkey::Pubkey::new_from_array(program.bytes);
    solana_sdk::pubkey::Pubkey::try_find_program_address(&seed_refs, &program_id)
        .map(|(address, _bump)| Address { bytes: address.to_bytes() })
}

/// Derives the program-owned address for `seeds` under `owner_program`.
/// Identical inputs always yield the identical address; the only failure is
/// an exhausted bump search.
pub fn derive_address(seeds: &Vec<Vec<u8>>, owner_program: &Address) -> (r: Result<
    Address,
    PumpError,
>)
    ensures
        match r {
            Ok(a) => pda_of(seeds_view(seeds@), owner_program@) is Some && a@ == pda_of(
                seeds_view(seeds@),
                owner_program@,
            ).unwrap(),
            Err(e) => e == PumpError::DerivationExhausted && pda_of(
                seeds_view(seeds@),
                owner_program@,
            ) is None,
        },
{
    match find_program_address(seeds, owner_program) {
        Some(a) => Ok(a),
        None => Err(PumpError::DerivationExhausted),
    }
}

/// The id of the bonding-curve token program itself.
pub open spec fn pumpfun_program_id() -> Seq<u8> {
    seq![
        1u8, 86, 224, 246, 147, 102, 90, 207, 68, 219, 21, 104, 191, 23, 91, 170, 81, 137, 203,
        151, 245, 210, 255, 59, 101, 93, 43, 182, 253, 109, 24, 176,
    ]
}

/// The bonding-curve token program's address as an executable value.
pub fn pumpfun_program() -> (r: Address)
    ensures
        r@ == pumpfun_program_id(),
{
    let bytes: [u8; 32] = [
        1u8, 86, 224, 246, 147, 102, 90, 207, 68, 219, 21, 104, 191, 23, 91, 170, 81, 137, 203,
        151, 245, 210, 255, 59, 101, 93, 43, 182, 253, 109, 24, 176,
    ];
    proof {
        assert(bytes@ =~= pumpfun_program_id());
    }
    Address { bytes }
}

/// The program's global configuration account.
pub open spec fn pumpfun_global_id() -> Seq<u8> {
    seq![
        58u8, 134, 94, 105, 238, 15, 84, 128, 202, 188, 246, 99, 87, 228, 220, 47, 24, 213, 141, 69,
        193, 234, 116, 137, 251, 55, 35, 217, 121, 60, 114, 166,
    ]
}

/// The program's global configuration account. Executable form of `pumpfun_global_id`.
pub fn pumpfun_global() -> (r: Address)
    ensures
        r@ == pumpfun_global_id(),
{
    let bytes: [u8; 32] = [
        58u8, 134, 94, 105, 238, 15, 84, 128, 202, 188, 246, 99, 87, 228, 220, 47, 24, 213, 141, 69,
        193, 234, 116, 137, 251, 55, 35, 217, 121, 60, 114, 166,
    ];
    proof {
        assert(bytes@ =~= pumpfun_global_id());
    }
    Address { bytes }
}

/// The authority that signs newly created mints on the program's behalf.
pub open spec fn pumpfun_mint_authority_id() -> Seq<u8> {
    seq![
        6u8, 197, 193, 206, 99, 141, 37, 103, 210, 100, 104, 176, 94, 185, 81, 209, 162, 141, 204,
        110, 18, 52, 130, 181, 198, 117, 20, 151, 112, 230, 43, 242,
    ]
}

/// The authority that signs newly created mints on the program's behalf. Executable form of `pumpfun_mint_authority_id`.
pub fn pumpfun_mint_authority() -> (r: Address)
    ensures
        r@ == pumpfun_mint_authority_id(),
{
    let bytes: [u8; 32] = [
        6u8, 197, 193, 206, 99, 141, 37, 103, 210, 100, 104, 176, 94, 185, 81, 209, 162, 141, 204,
        110, 18, 52, 130, 181, 198, 117, 20, 151, 112, 230, 43, 242,
    ];
    proof {
        assert(bytes@ =~= pumpfun_mint_authority_id());
    }
    Address { bytes }
}

/// The external token-metadata program.
pub open spec fn metaplex_program_id() -> Seq<u8> {
    seq![
        11u8, 112, 101, 177, 227, 209, 124, 69, 56, 157, 82, 127, 107, 4, 195, 205, 88, 184, 108,
        115, 26, 160, 253, 181, 73, 182, 209, 188, 3, 248, 41, 70,
    ]
}

/// The external token-metadata program. Executable form of `metaplex_program_id`.
pub fn metaplex_program() -> (r: Address)
    ensures
        r@ == metaplex_program_id(),
{
    let bytes: [u8; 32] = [
        11u8, 112, 101, 177, 227, 209, 124, 69, 56, 157, 82, 127, 107, 4, 195, 205, 88, 184, 108,
        115, 26, 160, 253, 181, 73, 182, 209, 188, 3, 248, 41, 70,
    ];
    proof {
        assert(bytes@ =~= metaplex_program_id());
    }
    Address { bytes }
}

/// The account that collects the program's trading fees.
pub open spec fn pumpfun_fee_recipient_id() -> Seq<u8> {
    seq![
        173u8, 17, 230, 164, 252, 41, 68, 164, 250, 130, 81, 190, 248, 21, 66, 110, 27, 251, 40,
        198, 182, 100, 102, 119, 96, 124, 106, 217, 245, 102, 166, 70,
    ]
}

/// The account that collects the program's trading fees. Executable form of `pumpfun_fee_recipient_id`.
pub fn pumpfun_fee_recipient() -> (r: Address)
    ensures
        r@ == pumpfun_fee_recipient_id(),
{
    let bytes: [u8; 32] = [
        173u8, 17, 230, 164, 252, 41, 68, 164, 250, 130, 81, 190, 248, 21, 66, 110, 27, 251, 40,
        198, 182, 100, 102, 119, 96, 124, 106, 217, 245, 102, 166, 70,
    ];
    proof {
        assert(bytes@ =~= pumpfun_fee_recipient_id());
    }
    Address { bytes }
}

/// The program's event authority account.
pub open spec fn pumpfun_event_authority_id() -> Seq<u8> {
    seq![
        172u8, 241, 54, 235, 1, 252, 28, 78, 136, 61, 35, 200, 181, 132, 74, 181, 154, 55, 246, 106,
        221, 87, 197, 233, 172, 59, 83, 224, 89, 211, 92, 100,
    ]
}

/// The program's event authority account. Executable form of `pumpfun_event_authority_id`.
pub fn pumpfun_event_authority() -> (r: Address)
    ensures
        r@ == pumpfun_event_authority_id(),
{
    let bytes: [u8; 32] = [
        172u8, 241, 54, 235, 1, 252, 28, 78, 136, 61, 35, 200, 181, 132, 74, 181, 154, 55, 246, 106,
        221, 87, 197, 233, 172, 59, 83, 224, 89, 211, 92, 100,
    ];
    proof {
        assert(bytes@ =~= pumpfun_event_authority_id());
    }
    Address { bytes }
}

/// The SPL token program.
pub open spec fn token_program_id() -> Seq<u8> {
    seq![
        6u8, 221, 246, 225, 215, 101, 161, 147, 217, 203, 225, 70, 206, 235, 121, 172, 28, 180, 133,
        237, 95, 91, 55, 145, 58, 140, 245, 133, 126, 255, 0, 169,
    ]
}

/// The SPL token program. Executable form of `token_program_id`.
pub fn token_program() -> (r: Address)
    ensures
        r@ == token_program_id(),
{
    let bytes: [u8; 32] = [
        6u8, 221, 246, 225, 215, 101, 161, 147, 217, 203, 225, 70, 206, 235, 121, 172, 28, 180, 133,
        237, 95, 91, 55, 145, 58, 140, 245, 133, 126, 255, 0, 169,
    ];
    proof {
        assert(bytes@ =~= token_program_id());
    }
    Address { bytes }
}

/// The associated-token-account program.
pub open spec fn ata_program_id() -> Seq<u8> {
    seq![
        140u8, 151, 37, 143, 78, 36, 137, 241, 187, 61, 16, 41, 20, 142, 13, 131, 11, 90, 19, 153,
        218, 255, 16, 132, 4, 142, 123, 216, 219, 233, 248, 89,
    ]
}

/// The associated-token-account program. Executable form of `ata_program_id`.
pub fn ata_program() -> (r: Address)
    ensures
        r@ == ata_program_id(),
{
    let bytes: [u8; 32] = [
        140u8, 151, 37, 143, 78, 36, 137, 241, 187, 61, 16, 41, 20, 142, 13, 131, 11, 90, 19, 153,
        218, 255, 16, 132, 4, 142, 123, 216, 219, 233, 248, 89,
    ];
    proof {
        assert(bytes@ =~= ata_program_id());
    }
    Address { bytes }
}

/// The system program.
pub open spec fn system_program_id() -> Seq<u8> {
    seq![
        0u8, 0, 0, 0, 0, 0, 0, 0, 0, 0, 0, 0, 0, 0, 0, 0, 0, 0, 0, 0, 0, 0, 0, 0, 0, 0, 0, 0, 0, 0,
        0, 0,
    ]
}

/// The system program. Executable form of `system_program_id`.
pub fn system_program() -> (r: Address)
    ensures
        r@ == system_program_id(),
{
    let bytes: [u8; 32] = [
        0u8, 0, 0, 0, 0, 0, 0, 0, 0, 0, 0, 0, 0, 0, 0, 0, 0, 0, 0, 0, 0, 0, 0, 0, 0, 0, 0, 0, 0, 0,
        0, 0,
    ];
    proof {
        assert(bytes@ =~= system_program_id());
    }
    Address { bytes }
}

/// The rent sysvar account.
pub open spec fn rent_sysvar_id() -> Seq<u8> {
    seq![
        6u8, 167, 213, 23, 25, 44, 92, 81, 33, 140, 201, 76, 61, 74, 241, 127, 88, 218, 238, 8, 155,
        161, 253, 68, 227, 219, 217, 138, 0, 0, 0, 0,
    ]
}

/// The rent sysvar account. Executable form of `rent_sysvar_id`.
pub fn rent_sysvar() -> (r: Address)
    ensures
        r@ == rent_sysvar_id(),
{
    let bytes: [u8; 32] = [
        6u8, 167, 213, 23, 25, 44, 92, 81, 33, 140, 201, 76, 61, 74, 241, 127, 88, 218, 238, 8, 155,
        161, 253, 68, 227, 219, 217, 138, 0, 0, 0, 0,
    ];
    proof {
        assert(bytes@ =~= rent_sysvar_id());
    }
    Address { bytes }
}


/// The literal seed tag of a bonding-curve account: the bytes of
/// "bonding-curve".
pub open spec fn bonding_curve_seed() -> Seq<u8> {
    seq![98u8, 111, 110, 100, 105, 110, 103, 45, 99, 117, 114, 118, 101]
}

/// Executable form of `bonding_curve_seed`.
pub fn bonding_curve_seed_bytes() -> (r: Vec<u8>)
    ensures
        r@ == bonding_curve_seed(),
{
    let v: Vec<u8> = vec![98u8, 111, 110, 100, 105, 110, 103, 45, 99, 117, 114, 118, 101];
    proof {
        assert(v@ =~= bonding_curve_seed());
    }
    v
}

/// The literal seed tag of a creator fee vault: the bytes of
/// "creator-vault".
pub open spec fn creator_vault_seed() -> Seq<u8> {
    seq![99u8, 114, 101, 97, 116, 111, 114, 45, 118, 97, 117, 108, 116]
}

/// Executable form of `creator_vault_seed`.
pub fn creator_vault_seed_bytes() -> (r: Vec<u8>)
    ensures
        r@ == creator_vault_seed(),
{
    let v: Vec<u8> = vec![99u8, 114, 101, 97, 116, 111, 114, 45, 118, 97, 117, 108, 116];
    proof {
        assert(v@ =~= creator_vault_seed());
    }
    v
}

/// The literal seed tag of a metadata account: the bytes of "metadata".
pub open spec fn metadata_seed() -> Seq<u8> {
    seq![109u8, 101, 116, 97, 100, 97, 116, 97]
}

/// Executable form of `metadata_seed`.
pub fn metadata_seed_bytes() -> (r: Vec<u8>)
    ensures
        r@ == metadata_seed(),
{
    let v: Vec<u8> = vec![109u8, 101, 116, 97, 100, 97, 116, 97];
    proof {
        assert(v@ =~= metadata_seed());
    }
    v
}

/// The bonding-curve account derived for a mint under the given program.
pub open spec fn spec_bonding_curve_pda(mint: Seq<u8>, program: Seq<u8>) -> Option<Seq<u8>> {
    pda_of(seq![bonding_curve_seed(), mint], program)
}

/// The creator fee vault derived for a creator under the bonding-curve
/// program.
pub open spec fn spec_creator_vault_pda(creator: Seq<u8>) -> Option<Seq<u8>> {
    pda_of(seq![creator_vault_seed(), creator], pumpfun_program_id())
}

/// The metadata account derived for a mint under the token-metadata
/// program.
pub open spec fn spec_metadata_pda(mint: Seq<u8>) -> Option<Seq<u8>> {
    pda_of(seq![metadata_seed(), metaplex_program_id(), mint], metaplex_program_id())
}

/// The associated token account of a wallet for a mint: derived from the
/// wallet, the SPL token program and the mint, under the
/// associated-token-account program (the canonical seed layout of that
/// program).
pub open spec fn spec_associated_token_address(wallet: Seq<u8>, mint: Seq<u8>) -> Option<Seq<u8>> {
    pda_of(seq![wallet, token_program_id(), mint], ata_program_id())
}

/// The bonding-curve account of `mint` under `program_id`.
pub fn get_pda(mint: &Address, program_id: &Address) -> (r: Result<Address, PumpError>)
    ensures
        match r {
            Ok(a) => spec_bonding_curve_pda(mint@, program_id@) is Some && a@
                == spec_bonding_curve_pda(mint@, program_id@).unwrap(),
            Err(e) => e == PumpError::DerivationExhausted && spec_bonding_curve_pda(
                mint@,
                program_id@,
            ) is None,
        },
{
    let mut seeds: Vec<Vec<u8>> = Vec::new();
    seeds.push(bonding_curve_seed_bytes());
    seeds.push(mint.to_vec());
    proof {
        assert(seeds_view(seeds@) =~= seq![bonding_curve_seed(), mint@]);
    }
    derive_address(&seeds, program_id)
}

/// The creator fee vault of `creator` under the bonding-curve program.
pub fn get_creator_vault_pda(creator: &Address) -> (r: Result<Address, PumpError>)
    ensures
        match r {
            Ok(a) => spec_creator_vault_pda(creator@) is Some && a@ == spec_creator_vault_pda(
                creator@,
            ).unwrap(),
            Err(e) => e == PumpError::DerivationExhausted && spec_creator_vault_pda(
                creator@,
            ) is None,
        },
{
    let mut seeds: Vec<Vec<u8>> = Vec::new();
    seeds.push(creator_vault_seed_bytes());
    seeds.push(creator.to_vec());
    proof {
        assert(seeds_view(seeds@) =~= seq![creator_vault_seed(), creator@]);
    }
    derive_address(&seeds, &pumpfun_program())
}

/// The metadata account of `mint` under the token-metadata program.
pub fn get_metadata_pda(mint: &Address) -> (r: Result<Address, PumpError>)
    ensures
        match r {
            Ok(a) => spec_metadata_pda(mint@) is Some && a@ == spec_metadata_pda(mint@).unwrap(),
            Err(e) => e == PumpError::DerivationExhausted && spec_metadata_pda(mint@) is None,
        },
{
    let mut seeds: Vec<Vec<u8>> = Vec::new();
    seeds.push(metadata_seed_bytes());
    seeds.push(metaplex_program().to_vec());
    seeds.push(mint.to_vec());
    proof {
        assert(seeds_view(seeds@) =~= seq![metadata_seed(), metaplex_program_id(), mint@]);
    }
    derive_address(&seeds, &metaplex_program())
}

/// The associated token account of `wallet` for `mint`.
pub fn get_associated_token_address(wallet: &Address, mint: &Address) -> (r: Result<
    Address,
    PumpError,
>)
    ensures
        match r {
            Ok(a) => spec_associated_token_address(wallet@, mint@) is Some && a@
                == spec_associated_token_address(wallet@, mint@).unwrap(),
            Err(e) => e == PumpError::DerivationExhausted && spec_associated_token_address(
                wallet@,
                mint@,
            ) is None,
        },
{
    let mut seeds: Vec<Vec<u8>> = Vec::new();
    seeds.push(wallet.to_vec());
    seeds.push(token_program().to_vec());
    seeds.push(mint.to_vec());
    proof {
        assert(seeds_view(seeds@) =~= seq![wallet@, token_program_id(), mint@]);
    }
    derive_address(&seeds, &ata_program())
}

/// Determinism of derivation: two derivations from the same seeds and the
/// same owning program name the same address.
pub proof fn lemma_derivation_deterministic(
    seeds: Seq<Seq<u8>>,
    program: Seq<u8>,
    first: Option<Seq<u8>>,
    second: Option<Seq<u8>>,
)
    requires
        first == pda_of(seeds, program),
        second == pda_of(seeds, program),
    ensures
        first == second,
{
}

} // verus!
