use std::str::FromStr;

use solana_sdk::pubkey::Pubkey;

use pump_instructions::address::Address;
use pump_instructions::address::ata_program;
use pump_instructions::address::derive_address;
use pump_instructions::address::get_associated_token_address;
use pump_instructions::address::get_creator_vault_pda;
use pump_instructions::address::get_metadata_pda;
use pump_instructions::address::get_pda;
use pump_instructions::address::metaplex_program;
use pump_instructions::address::pumpfun_event_authority;
use pump_instructions::address::pumpfun_fee_recipient;
use pump_instructions::address::pumpfun_global;
use pump_instructions::address::pumpfun_mint_authority;
use pump_instructions::address::pumpfun_program;
use pump_instructions::address::rent_sysvar;
use pump_instructions::address::system_program;
use pump_instructions::address::token_program;

fn check(address: Address, base58: &str) {
    assert_eq!(address.bytes, Pubkey::from_str(base58).unwrap().to_bytes());
}

#[test]
fn constants_match_their_base58_forms() {
    check(pumpfun_program(), "6EF8rrecthR5Dkzon8Nwu78hRvfCKubJ14M5uBEwF6P");
    check(pumpfun_global(), "4wTV1YmiEkRvAtNtsSGPtUrqRYQMe5SKy2uB4Jjaxnjf");
    check(pumpfun_mint_authority(), "TSLvdd1pWpHVjahSpsvCXUbgwsL3JAcvokwaKt1eokM");
    check(metaplex_program(), "metaqbxxUerdq28cj1RbAWkYQm3ybzjb6a8bt518x1s");
    check(pumpfun_fee_recipient(), "CebN5WGQ4jvEPvsVU4EoHEpgzq1VV7AbicfhtW4xC9iM");
    check(pumpfun_event_authority(), "Ce6TQqeHC9p8KetsN6JsjHK7UTZk7nasjjnr7XxXp9F1");
    check(token_program(), "TokenkegQfeZyiNwAJbNbGKPFXCWuBvf9Ss623VQ5DA");
    check(ata_program(), "ATokenGPvbdGVxr1b2hvZbsiqW5xWH25efTNsLJA8knL");
    check(system_program(), "11111111111111111111111111111111");
    check(rent_sysvar(), "SysvarRent111111111111111111111111111111111");
}

#[test]
fn derivation_is_deterministic() {
    let seeds = vec![b"bonding-curve".to_vec(), vec![42u8; 32]];
    let program = pumpfun_program();
    let first = derive_address(&seeds, &program).unwrap();
    let second = derive_address(&seeds, &program).unwrap();
    assert_eq!(first.bytes, second.bytes);
}

#[test]
fn bonding_curve_pda_matches_the_sdk() {
    let mint = Address::new([42u8; 32]);
    let ours = get_pda(&mint, &pumpfun_program()).unwrap();
    let mint_pk = Pubkey::new_from_array(mint.bytes);
    let program_pk = Pubkey::new_from_array(pumpfun_program().bytes);
    let (expected, _bump) =
        Pubkey::find_program_address(&[b"bonding-curve", mint_pk.as_ref()], &program_pk);
    assert_eq!(ours.bytes, expected.to_bytes());
    // The derivation really transformed its input.
    assert_ne!(ours.bytes, mint.bytes);
}

#[test]
fn creator_vault_pda_matches_the_sdk() {
    let creator = Address::new([7u8; 32]);
    let ours = get_creator_vault_pda(&creator).unwrap();
    let creator_pk = Pubkey::new_from_array(creator.bytes);
    let program_pk = Pubkey::new_from_array(pumpfun_program().bytes);
    let (expected, _bump) =
        Pubkey::find_program_address(&[b"creator-vault", creator_pk.as_ref()], &program_pk);
    assert_eq!(ours.bytes, expected.to_bytes());
}

#[test]
fn metadata_pda_matches_the_sdk() {
    let mint = Address::new([3u8; 32]);
    let ours = get_metadata_pda(&mint).unwrap();
    let mint_pk = Pubkey::new_from_array(mint.bytes);
    let metaplex_pk = Pubkey::new_from_array(metaplex_program().bytes);
    let (expected, _bump) = Pubkey::find_program_address(
        &[b"metadata", metaplex_pk.as_ref(), mint_pk.as_ref()],
        &metaplex_pk,
    );
    assert_eq!(ours.bytes, expected.to_bytes());
}

#[test]
fn associated_token_address_matches_the_spl_crate() {
    let wallet = Address::new([5u8; 32]);
    let mint = Address::new([6u8; 32]);
    let ours = get_associated_token_address(&wallet, &mint).unwrap();
    let expected = spl_associated_token_account::get_associated_token_address(
        &Pubkey::new_from_array(wallet.bytes),
        &Pubkey::new_from_array(mint.bytes),
    );
    assert_eq!(ours.bytes, expected.to_bytes());
}
