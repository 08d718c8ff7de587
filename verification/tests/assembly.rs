use std::str::FromStr;

use solana_sdk::pubkey::Pubkey;

use pump_instructions::address::Address;
use pump_instructions::address::get_associated_token_address;
use pump_instructions::address::get_creator_vault_pda;
use pump_instructions::address::get_pda;
use pump_instructions::address::pumpfun_program;
use pump_instructions::assemble::assemble_trade;
use pump_instructions::assemble::get_create_buy_instruction;
use pump_instructions::assemble::get_sell_all_and_close_instructions_with_balance;
use pump_instructions::assemble::get_sell_parameters;
use pump_instructions::assemble::sell_all_tokens_and_close_ata;
use pump_instructions::assemble::validate_creation_request;
use pump_instructions::assemble::validate_trade_request;
use pump_instructions::assemble::TokenCreationRequest;
use pump_instructions::assemble::TradeDirection;
use pump_instructions::assemble::TradeRequest;
use pump_instructions::instruction::create_ata_close_instruction;
use pump_instructions::instruction::create_associated_token_account_idempotent;
use pump_instructions::instruction::Instruction;
use pump_instructions::pricing::VirtualReserves;
use pump_instructions::PumpError;

fn reserves() -> VirtualReserves {
    VirtualReserves {
        virtual_sol_reserves: 29_998_065_120,
        virtual_token_reserves: 73_000_000_000_000,
    }
}

fn creation_request(name: &[u8]) -> TokenCreationRequest {
    TokenCreationRequest {
        name: name.to_vec(),
        symbol: b"MTK".to_vec(),
        uri: b"https://example.com/metadata.json".to_vec(),
        creator: Address::new([7u8; 32]),
        initial_buy_amount: 100_000_000,
    }
}

#[test]
fn empty_name_fails_with_invalid_creation_request() {
    let request = creation_request(b"");
    assert_eq!(
        validate_creation_request(&request),
        Err(PumpError::InvalidCreationRequest)
    );
    assert_eq!(
        get_create_buy_instruction(&request, &Address::new([1u8; 32]), &reserves(), 1500),
        Err(PumpError::InvalidCreationRequest)
    );
}

#[test]
fn zero_amount_fails_with_invalid_amount() {
    let request = TradeRequest { direction: TradeDirection::Buy, amount: 0, slippage_bps: 100 };
    assert_eq!(validate_trade_request(&request), Err(PumpError::InvalidAmount));
    assert_eq!(
        assemble_trade(&request, &Address::new([1u8; 32]), &Address::new([2u8; 32]), &reserves(), 9),
        Err(PumpError::InvalidAmount)
    );

    let mut creation = creation_request(b"My Token");
    creation.initial_buy_amount = 0;
    assert_eq!(validate_creation_request(&creation), Err(PumpError::InvalidAmount));
}

#[test]
fn zero_balance_fails_with_nothing_to_sell() {
    let mint = Address::new([1u8; 32]);
    let user = Address::new([2u8; 32]);
    assert_eq!(
        get_sell_all_and_close_instructions_with_balance(
            &mint,
            &Address::new([3u8; 32]),
            &user,
            &Address::new([4u8; 32]),
            &reserves(),
            0,
            1500,
        ),
        Err(PumpError::NothingToSell)
    );
    assert_eq!(
        sell_all_tokens_and_close_ata(&mint, &user, &reserves(), 0, 1500),
        Err(PumpError::NothingToSell)
    );
    let request =
        TradeRequest { direction: TradeDirection::Sell, amount: 10, slippage_bps: 1500 };
    assert_eq!(
        assemble_trade(&request, &mint, &user, &reserves(), 0),
        Err(PumpError::NothingToSell)
    );
}

fn meta(entry: &pump_instructions::instruction::AccountEntry) -> ([u8; 32], bool, bool) {
    (entry.address.bytes, entry.is_signer, entry.is_writable)
}

#[test]
fn sell_all_builds_the_exact_instruction_pair() {
    let mint = Address::new([42u8; 32]);
    let user = Address::new([9u8; 32]);
    let balance: u64 = 1_000_000;
    let instructions =
        sell_all_tokens_and_close_ata(&mint, &user, &reserves(), balance, 1500).unwrap();
    assert_eq!(instructions.len(), 2);

    let bonding_curve = get_pda(&mint, &pumpfun_program()).unwrap();
    let associated_bonding_curve =
        get_associated_token_address(&bonding_curve, &mint).unwrap();
    let user_token_account = get_associated_token_address(&user, &mint).unwrap();
    let creator_vault = get_creator_vault_pda(&user).unwrap();

    let sell = &instructions[0];
    assert_eq!(sell.program_id.bytes, pumpfun_program().bytes);
    assert_eq!(&sell.data[0..8], &[0x33, 0xE6, 0x85, 0xA4, 0x01, 0x7F, 0x83, 0xAD]);
    assert_eq!(&sell.data[8..16], &balance.to_le_bytes());
    // The expected output is far above the safety clamp, so the minimum
    // output is the 100-lamport cap.
    assert_eq!(&sell.data[16..24], &100u64.to_le_bytes());

    let global = Pubkey::from_str("4wTV1YmiEkRvAtNtsSGPtUrqRYQMe5SKy2uB4Jjaxnjf").unwrap();
    let fee = Pubkey::from_str("CebN5WGQ4jvEPvsVU4EoHEpgzq1VV7AbicfhtW4xC9iM").unwrap();
    let system = Pubkey::from_str("11111111111111111111111111111111").unwrap();
    let token = Pubkey::from_str("TokenkegQfeZyiNwAJbNbGKPFXCWuBvf9Ss623VQ5DA").unwrap();
    let event = Pubkey::from_str("Ce6TQqeHC9p8KetsN6JsjHK7UTZk7nasjjnr7XxXp9F1").unwrap();
    let program = Pubkey::from_str("6EF8rrecthR5Dkzon8Nwu78hRvfCKubJ14M5uBEwF6P").unwrap();
    let expected: Vec<([u8; 32], bool, bool)> = vec![
        (global.to_bytes(), false, false),
        (fee.to_bytes(), false, true),
        (mint.bytes, false, false),
        (bonding_curve.bytes, false, true),
        (associated_bonding_curve.bytes, false, true),
        (user_token_account.bytes, false, true),
        (user.bytes, true, true),
        (system.to_bytes(), false, false),
        (creator_vault.bytes, false, true),
        (token.to_bytes(), false, false),
        (event.to_bytes(), false, false),
        (program.to_bytes(), false, false),
    ];
    let actual: Vec<([u8; 32], bool, bool)> = sell.accounts.iter().map(meta).collect();
    assert_eq!(actual, expected);

    let close = &instructions[1];
    assert_eq!(close.program_id.bytes, token.to_bytes());
    assert_eq!(close.data, vec![9u8]);
    let actual_close: Vec<([u8; 32], bool, bool)> = close.accounts.iter().map(meta).collect();
    assert_eq!(
        actual_close,
        vec![
            (user_token_account.bytes, false, true),
            (user.bytes, false, true),
            (user.bytes, true, false),
        ]
    );
}

fn to_solana(ix: &Instruction) -> solana_sdk::instruction::Instruction {
    solana_sdk::instruction::Instruction {
        program_id: Pubkey::new_from_array(ix.program_id.bytes),
        accounts: ix
            .accounts
            .iter()
            .map(|e| solana_sdk::instruction::AccountMeta {
                pubkey: Pubkey::new_from_array(e.address.bytes),
                is_signer: e.is_signer,
                is_writable: e.is_writable,
            })
            .collect(),
        data: ix.data.clone(),
    }
}

#[test]
fn close_instruction_matches_the_spl_token_crate() {
    let user_token_account = Address::new([11u8; 32]);
    let user = Address::new([12u8; 32]);
    let mint = Address::new([13u8; 32]);
    let ours = to_solana(&create_ata_close_instruction(&user_token_account, &user, &mint));
    let expected = spl_token::instruction::close_account(
        &spl_token::id(),
        &Pubkey::new_from_array(user_token_account.bytes),
        &Pubkey::new_from_array(user.bytes),
        &Pubkey::new_from_array(user.bytes),
        &[],
    )
    .unwrap();
    assert_eq!(ours, expected);
}

#[test]
fn ata_creation_matches_the_spl_crate() {
    let funder = Address::new([21u8; 32]);
    let wallet = Address::new([22u8; 32]);
    let mint = Address::new([23u8; 32]);
    let ours = to_solana(
        &create_associated_token_account_idempotent(&funder, &wallet, &mint).unwrap(),
    );
    let expected = spl_associated_token_account::instruction::create_associated_token_account_idempotent(
        &Pubkey::new_from_array(funder.bytes),
        &Pubkey::new_from_array(wallet.bytes),
        &Pubkey::new_from_array(mint.bytes),
        &spl_token::id(),
    );
    assert_eq!(ours, expected);
}

#[test]
fn create_buy_flow_builds_three_instructions() {
    let request = creation_request(b"My Token");
    let mint = Address::new([42u8; 32]);
    let instructions =
        get_create_buy_instruction(&request, &mint, &reserves(), 1500).unwrap();
    assert_eq!(instructions.len(), 3);

    let create = &instructions[0];
    assert_eq!(create.program_id.bytes, pumpfun_program().bytes);
    assert_eq!(&create.data[0..8], &[0x63, 0x72, 0x65, 0x61, 0x74, 0x65, 0x00, 0x00]);
    assert_eq!(create.accounts.len(), 14);
    assert_eq!(meta(&create.accounts[0]), (mint.bytes, true, true));
    assert_eq!(meta(&create.accounts[7]), (request.creator.bytes, true, true));

    let ata = &instructions[1];
    let expected_ata = spl_associated_token_account::instruction::create_associated_token_account_idempotent(
        &Pubkey::new_from_array(request.creator.bytes),
        &Pubkey::new_from_array(request.creator.bytes),
        &Pubkey::new_from_array(mint.bytes),
        &spl_token::id(),
    );
    assert_eq!(to_solana(ata), expected_ata);

    let buy = &instructions[2];
    assert_eq!(buy.program_id.bytes, pumpfun_program().bytes);
    assert_eq!(&buy.data[0..8], &[0x66, 0x06, 0x3d, 0x12, 0x01, 0xda, 0xeb, 0xea]);
    // tokens priced for 100_000_000 lamports, with 1500 bps slippage applied.
    let tokens_with_slippage: u64 = 243_349_028_372 * 8500 / 10000;
    assert_eq!(&buy.data[8..16], &tokens_with_slippage.to_le_bytes());
    assert_eq!(&buy.data[16..24], &100_000_000u64.to_le_bytes());
    assert_eq!(buy.accounts.len(), 9);
    let deployer_token_account =
        get_associated_token_address(&request.creator, &mint).unwrap();
    assert_eq!(meta(&buy.accounts[4]), (deployer_token_account.bytes, false, true));
    assert_eq!(meta(&buy.accounts[5]), (request.creator.bytes, true, true));
}

#[test]
fn buy_trade_builds_ata_then_buy() {
    let mint = Address::new([42u8; 32]);
    let user = Address::new([9u8; 32]);
    let request =
        TradeRequest { direction: TradeDirection::Buy, amount: 100_000_000, slippage_bps: 1500 };
    let instructions = assemble_trade(&request, &mint, &user, &reserves(), 0).unwrap();
    assert_eq!(instructions.len(), 2);
    let (bonding_curve, associated_bonding_curve, user_token_account, _creator_vault) =
        get_sell_parameters(&mint, &user).unwrap();
    let buy = &instructions[1];
    assert_eq!(meta(&buy.accounts[2]), (bonding_curve.bytes, false, true));
    assert_eq!(meta(&buy.accounts[3]), (associated_bonding_curve.bytes, false, true));
    assert_eq!(meta(&buy.accounts[4]), (user_token_account.bytes, false, true));
    let ata = &instructions[0];
    assert_eq!(ata.data, vec![1u8]);
    assert_eq!(meta(&ata.accounts[1]), (user_token_account.bytes, false, true));
}
