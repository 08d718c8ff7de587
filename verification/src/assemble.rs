//! The trade instruction assembler: validation, address derivation,
//! pricing, slippage and encoding composed into ordered instruction lists.
//!
//! A buy-side assembly yields `[create, associate-account, buy]`; a
//! sell-side assembly yields `[sell, close-account]`. Failure at any stage
//! surfaces the originating error and never returns a partial list. The
//! sell side is sized from a token balance queried by the caller: a zero
//! balance is rejected before any pricing or encoding work.

use vstd::prelude::*;
use crate::PumpError;
use crate::address::Address;
use crate::address::get_associated_token_address;
use crate::address::get_creator_vault_pda;
use crate::address::get_metadata_pda;
use crate::address::get_pda;
use crate::address::pumpfun_program;
use crate::address::pumpfun_program_id;
use crate::address::spec_associated_token_address;
use crate::address::spec_bonding_curve_pda;
use crate::address::spec_creator_vault_pda;
use crate::address::spec_metadata_pda;
use crate::encode::build_create_instruction_data;
use crate::instruction::Instruction;
use crate::instruction::ata_create_instruction_ok;
use crate::instruction::build_buy_instruction;
use crate::instruction::buy_instruction_ok;
use crate::instruction::close_instruction_ok;
use crate::instruction::create_associated_token_account_idempotent;
use crate::instruction::create_ata_close_instruction;
use crate::instruction::create_instruction_ok;
use crate::instruction::create_sell_all_instruction;
use crate::instruction::get_create_instruction_accounts;
use crate::instruction::sell_instruction_ok;
use crate::pricing::VirtualReserves;
use crate::pricing::calculate_sell_sol_amount;
use crate::pricing::get_amount_out;
use crate::pricing::spec_sol_out;
use crate::pricing::spec_tokens_out;
use crate::slippage::min_amount_with_slippage;
use crate::slippage::spec_min_amount_with_slippage;

verus! {

/// The safety clamp of the sell side: the computed minimum output is
/// capped at this many lamports, so an unreliable pricing estimate cannot
/// make the program reject the trade.
pub const SELL_MIN_OUTPUT_CAP_LAMPORTS: u64 = 100;

/// A request to create a token: its metadata text fields, the creator's
/// wallet address, and the initial purchase in base-currency units.
#[derive(Clone, Debug, PartialEq, Eq)]
pub struct TokenCreationRequest {
    pub name: Vec<u8>,
    pub symbol: Vec<u8>,
    pub uri: Vec<u8>,
    pub creator: Address,
    pub initial_buy_amount: u64,
}

/// The direction of a trade.
#[derive(Clone, Copy, Debug, PartialEq, Eq)]
pub enum TradeDirection {
    Buy,
    Sell,
}

/// A request to trade: direction, amount (base-currency units for a buy,
/// token units for a sell), and the slippage tolerance in basis points.
#[derive(Clone, Copy, Debug, PartialEq, Eq)]
pub struct TradeRequest {
    pub direction: TradeDirection,
    pub amount: u64,
    pub slippage_bps: u128,
}

/// Why a creation request is rejected: an empty text field, a zero
/// purchase amount, or a text field too long for its length prefix, in
/// that order of precedence.
pub open spec fn spec_creation_request_error(req: TokenCreationRequest) -> Option<PumpError> {
    if req.name@.len() == 0 || req.symbol@.len() == 0 || req.uri@.len() == 0 {
        Some(PumpError::InvalidCreationRequest)
    } else if req.initial_buy_amount == 0 {
        Some(PumpError::InvalidAmount)
    } else if req.name@.len() > u32::MAX || req.symbol@.len() > u32::MAX || req.uri@.len()
        > u32::MAX {
        Some(PumpError::FieldTooLong)
    } else {
        None
    }
}

/// Validates a creation request, rejecting it exactly as
/// `spec_creation_request_error` states.
pub fn validate_creation_request(req: &TokenCreationRequest) -> (r: Result<(), PumpError>)
    ensures
        match r {
            Ok(()) => spec_creation_request_error(*req) is None,
            Err(e) => spec_creation_request_error(*req) == Some(e),
        },
{
    if req.name.len() == 0 || req.symbol.len() == 0 || req.uri.len() == 0 {
        return Err(PumpError::InvalidCreationRequest);
    }
    if req.initial_buy_amount == 0 {
        return Err(PumpError::InvalidAmount);
    }
    if req.name.len() > u32::MAX as usize || req.symbol.len() > u32::MAX as usize || req.uri.len()
        > u32::MAX as usize {
        return Err(PumpError::FieldTooLong);
    }
    Ok(())
}

/// Validates a trade request: the amount must be strictly positive.
pub fn validate_trade_request(req: &TradeRequest) -> (r: Result<(), PumpError>)
    ensures
        r is Ok <==> req.amount > 0,
        r is Err ==> r == Err::<(), PumpError>(PumpError::InvalidAmount),
{
    if req.amount == 0 {
        return Err(PumpError::InvalidAmount);
    }
    Ok(())
}

/// The two derived addresses a sell needs: the mint's bonding-curve
/// account, and that account's associated token account.
pub open spec fn spec_sell_addresses(mint: Seq<u8>) -> Option<(Seq<u8>, Seq<u8>)> {
    match spec_bonding_curve_pda(mint, pumpfun_program_id()) {
        Some(bonding_curve) => match spec_associated_token_address(bonding_curve, mint) {
            Some(associated_bonding_curve) => Some((bonding_curve, associated_bonding_curve)),
            None => None,
        },
        None => None,
    }
}

/// The minimum output a sell instruction carries: the priced estimate,
/// scaled down by the slippage tolerance, capped by the safety clamp.
pub open spec fn spec_final_min_output(
    tokens_to_sell: u64,
    reserves: VirtualReserves,
    slippage_bps: u128,
) -> u64 {
    let expected = spec_sol_out(
        tokens_to_sell,
        reserves.virtual_sol_reserves,
        reserves.virtual_token_reserves,
    );
    let guarded = spec_min_amount_with_slippage(expected, slippage_bps);
    if guarded > SELL_MIN_OUTPUT_CAP_LAMPORTS {
        SELL_MIN_OUTPUT_CAP_LAMPORTS
    } else {
        guarded
    }
}

/// Derives the sell-side addresses, prices the sale, applies slippage and
/// the safety clamp, and builds the sell and close-account instructions.
fn build_sell_and_close(
    mint_pubkey: &Address,
    user_token_account: &Address,
    user_pubkey: &Address,
    creator_vault: &Address,
    reserves: &VirtualReserves,
    tokens_to_sell: u64,
    slippage_bps: u128,
) -> (r: Result<Vec<Instruction>, PumpError>)
    ensures
        r is Err ==> r == Err::<Vec<Instruction>, PumpError>(PumpError::DerivationExhausted),
        r is Err <==> spec_sell_addresses(mint_pubkey@) is None,
        match r {
            Ok(ixs) => spec_sell_addresses(mint_pubkey@) is Some && {
                let addrs = spec_sell_addresses(mint_pubkey@).unwrap();
                &&& ixs@.len() == 2
                &&& sell_instruction_ok(
                    ixs@[0],
                    mint_pubkey@,
                    addrs.0,
                    addrs.1,
                    user_token_account@,
                    user_pubkey@,
                    creator_vault@,
                    tokens_to_sell,
                    spec_final_min_output(tokens_to_sell, *reserves, slippage_bps),
                )
                &&& close_instruction_ok(ixs@[1], user_token_account@, user_pubkey@, user_pubkey@)
            },
            Err(_) => true,
        },
{
    let bonding_curve = match get_pda(mint_pubkey, &pumpfun_program()) {
        Ok(a) => a,
        Err(e) => {
            return Err(e);
        },
    };
    let associated_bonding_curve = match get_associated_token_address(
        &bonding_curve,
        mint_pubkey,
    ) {
        Ok(a) => a,
        Err(e) => {
            return Err(e);
        },
    };
    let expected_sol_output = calculate_sell_sol_amount(tokens_to_sell, reserves);
    let min_sol_output = min_amount_with_slippage(expected_sol_output, slippage_bps);
    let final_min_output = if min_sol_output > SELL_MIN_OUTPUT_CAP_LAMPORTS {
        SELL_MIN_OUTPUT_CAP_LAMPORTS
    } else {
        min_sol_output
    };
    let sell_instruction = create_sell_all_instruction(
        mint_pubkey,
        &bonding_curve,
        &associated_bonding_curve,
        user_token_account,
        user_pubkey,
        creator_vault,
        tokens_to_sell,
        final_min_output,
    );
    let close_instruction = create_ata_close_instruction(
        user_token_account,
        user_pubkey,
        mint_pubkey,
    );
    let mut instructions: Vec<Instruction> = Vec::new();
    instructions.push(sell_instruction);
    instructions.push(close_instruction);
    Ok(instructions)
}

/// Builds the sell-all-and-close instruction pair for a queried token
/// balance: rejects a zero balance before any pricing or encoding work,
/// then sells the entire balance and closes the token account.
pub fn get_sell_all_and_close_instructions_with_balance(
    mint_pubkey: &Address,
    user_token_account: &Address,
    user_pubkey: &Address,
    creator_vault: &Address,
    reserves: &VirtualReserves,
    token_balance: u64,
    slippage_bps: u128,
) -> (r: Result<Vec<Instruction>, PumpError>)
    ensures
        token_balance == 0 <==> r == Err::<Vec<Instruction>, PumpError>(PumpError::NothingToSell),
        r == Err::<Vec<Instruction>, PumpError>(PumpError::DerivationExhausted) <==> (token_balance
            > 0 && spec_sell_addresses(mint_pubkey@) is None),
        r is Err ==> (r == Err::<Vec<Instruction>, PumpError>(PumpError::NothingToSell) || r
            == Err::<Vec<Instruction>, PumpError>(PumpError::DerivationExhausted)),
        match r {
            Ok(ixs) => token_balance > 0 && spec_sell_addresses(mint_pubkey@) is Some && {
                let addrs = spec_sell_addresses(mint_pubkey@).unwrap();
                &&& ixs@.len() == 2
                &&& sell_instruction_ok(
                    ixs@[0],
                    mint_pubkey@,
                    addrs.0,
                    addrs.1,
                    user_token_account@,
                    user_pubkey@,
                    creator_vault@,
                    token_balance,
                    spec_final_min_output(token_balance, *reserves, slippage_bps),
                )
                &&& close_instruction_ok(ixs@[1], user_token_account@, user_pubkey@, user_pubkey@)
            },
            Err(_) => true,
        },
{
    if token_balance == 0 {
        return Err(PumpError::NothingToSell);
    }
    build_sell_and_close(
        mint_pubkey,
        user_token_account,
        user_pubkey,
        creator_vault,
        reserves,
        token_balance,
        slippage_bps,
    )
}

/// The four derived addresses a sell-all needs: bonding curve, its
/// associated token account, the user's token account, and the user's
/// creator fee vault.
pub open spec fn spec_sell_parameters(mint: Seq<u8>, user: Seq<u8>) -> Option<
    (Seq<u8>, Seq<u8>, Seq<u8>, Seq<u8>),
> {
    match spec_sell_addresses(mint) {
        Some(pair) => match spec_associated_token_address(user, mint) {
            Some(user_token_account) => match spec_creator_vault_pda(user) {
                Some(creator_vault) => Some(
                    (pair.0, pair.1, user_token_account, creator_vault),
                ),
                None => None,
            },
            None => None,
        },
        None => None,
    }
}

/// Derives every address a sell needs: the bonding curve, its associated
/// token account, the user's token account, and the user's creator fee
/// vault, in that order.
pub fn get_sell_parameters(mint_pubkey: &Address, user_pubkey: &Address) -> (r: Result<
    (Address, Address, Address, Address),
    PumpError,
>)
    ensures
        match r {
            Ok(t) => spec_sell_parameters(mint_pubkey@, user_pubkey@) is Some && {
                let p = spec_sell_parameters(mint_pubkey@, user_pubkey@).unwrap();
                t.0@ == p.0 && t.1@ == p.1 && t.2@ == p.2 && t.3@ == p.3
            },
            Err(e) => e == PumpError::DerivationExhausted && spec_sell_parameters(
                mint_pubkey@,
                user_pubkey@,
            ) is None,
        },
{
    let bonding_curve = match get_pda(mint_pubkey, &pumpfun_program()) {
        Ok(a) => a,
        Err(e) => {
            return Err(e);
        },
    };
    let associated_bonding_curve = match get_associated_token_address(
        &bonding_curve,
        mint_pubkey,
    ) {
        Ok(a) => a,
        Err(e) => {
            return Err(e);
        },
    };
    let user_token_account = match get_associated_token_address(user_pubkey, mint_pubkey) {
        Ok(a) => a,
        Err(e) => {
            return Err(e);
        },
    };
    let creator_vault = match get_creator_vault_pda(user_pubkey) {
        Ok(a) => a,
        Err(e) => {
            return Err(e);
        },
    };
    Ok((bonding_curve, associated_bonding_curve, user_token_account, creator_vault))
}

/// Sells the entire queried balance and closes the token account: derives
/// every address from the mint and the user, then assembles the
/// `[sell, close-account]` pair. The caller supplies the queried token
/// balance and the reserve snapshot.
pub fn sell_all_tokens_and_close_ata(
    mint_pubkey: &Address,
    user_pubkey: &Address,
    reserves: &VirtualReserves,
    token_balance: u64,
    slippage_bps: u128,
) -> (r: Result<Vec<Instruction>, PumpError>)
    ensures
        spec_sell_parameters(mint_pubkey@, user_pubkey@) is None <==> r == Err::<
            Vec<Instruction>,
            PumpError,
        >(PumpError::DerivationExhausted),
        spec_sell_parameters(mint_pubkey@, user_pubkey@) is Some ==> (token_balance == 0 <==> r
            == Err::<Vec<Instruction>, PumpError>(PumpError::NothingToSell)),
        r is Err ==> (r == Err::<Vec<Instruction>, PumpError>(PumpError::NothingToSell) || r
            == Err::<Vec<Instruction>, PumpError>(PumpError::DerivationExhausted)),
        match r {
            Ok(ixs) => token_balance > 0 && spec_sell_parameters(
                mint_pubkey@,
                user_pubkey@,
            ) is Some && {
                let p = spec_sell_parameters(mint_pubkey@, user_pubkey@).unwrap();
                &&& ixs@.len() == 2
                &&& sell_instruction_ok(
                    ixs@[0],
                    mint_pubkey@,
                    p.0,
                    p.1,
                    p.2,
                    user_pubkey@,
                    p.3,
                    token_balance,
                    spec_final_min_output(token_balance, *reserves, slippage_bps),
                )
                &&& close_instruction_ok(ixs@[1], p.2, user_pubkey@, user_pubkey@)
            },
            Err(_) => true,
        },
{
    let (bonding_curve, associated_bonding_curve, user_token_account, creator_vault) =
        match get_sell_parameters(mint_pubkey, user_pubkey) {
        Ok(t) => t,
        Err(e) => {
            return Err(e);
        },
    };
    get_sell_all_and_close_instructions_with_balance(
        mint_pubkey,
        &user_token_account,
        user_pubkey,
        &creator_vault,
        reserves,
        token_balance,
        slippage_bps,
    )
}

/// The token amount a buy instruction carries: the priced output for the
/// base-currency input, scaled down by the slippage tolerance.
pub open spec fn spec_buy_token_amount(
    amount_in: u64,
    reserves: VirtualReserves,
    slippage_bps: u128,
) -> u64 {
    spec_min_amount_with_slippage(
        spec_tokens_out(amount_in, reserves.virtual_sol_reserves, reserves.virtual_token_reserves),
        slippage_bps,
    )
}

/// The five derived addresses a creation-with-buy needs: bonding curve,
/// metadata account, the curve's associated token account, the deployer's
/// token account, and the deployer's creator fee vault.
pub open spec fn spec_create_buy_addresses(mint: Seq<u8>, deployer: Seq<u8>) -> Option<
    (Seq<u8>, Seq<u8>, Seq<u8>, Seq<u8>, Seq<u8>),
> {
    match spec_bonding_curve_pda(mint, pumpfun_program_id()) {
        Some(bonding_curve) => match spec_metadata_pda(mint) {
            Some(metadata_account) => match spec_associated_token_address(bonding_curve, mint) {
                Some(associated_bonding_curve) => match spec_associated_token_address(
                    deployer,
                    mint,
                ) {
                    Some(deployer_token_account) => match spec_creator_vault_pda(deployer) {
                        Some(creator_vault) => Some(
                            (
                                bonding_curve,
                                metadata_account,
                                associated_bonding_curve,
                                deployer_token_account,
                                creator_vault,
                            ),
                        ),
                        None => None,
                    },
                    None => None,
                },
                None => None,
            },
            None => None,
        },
        None => None,
    }
}

/// Assembles the full creation flow: validates the request, derives every
/// address, prices the initial purchase against the reserve snapshot, and
/// yields `[create, associate-account, buy]`.
pub fn get_create_buy_instruction(
    request: &TokenCreationRequest,
    mint_pubkey: &Address,
    reserves: &VirtualReserves,
    slippage_bps: u128,
) -> (r: Result<Vec<Instruction>, PumpError>)
    ensures
        spec_creation_request_error(*request) is Some ==> r == Err::<Vec<Instruction>, PumpError>(
            spec_creation_request_error(*request).unwrap(),
        ),
        spec_creation_request_error(*request) is None ==> (r == Err::<Vec<Instruction>, PumpError>(
            PumpError::DerivationExhausted,
        ) <==> spec_create_buy_addresses(mint_pubkey@, request.creator@) is None),
        r is Ok <==> (spec_creation_request_error(*request) is None && spec_create_buy_addresses(
            mint_pubkey@,
            request.creator@,
        ) is Some),
        match r {
            Ok(ixs) => spec_create_buy_addresses(mint_pubkey@, request.creator@) is Some && {
                let a = spec_create_buy_addresses(mint_pubkey@, request.creator@).unwrap();
                &&& ixs@.len() == 3
                &&& create_instruction_ok(
                    ixs@[0],
                    mint_pubkey@,
                    a.0,
                    a.2,
                    a.1,
                    request.creator@,
                    request.name@,
                    request.symbol@,
                    request.uri@,
                )
                &&& ata_create_instruction_ok(
                    ixs@[1],
                    request.creator@,
                    a.3,
                    request.creator@,
                    mint_pubkey@,
                )
                &&& buy_instruction_ok(
                    ixs@[2],
                    mint_pubkey@,
                    a.0,
                    a.2,
                    a.3,
                    request.creator@,
                    a.4,
                    spec_buy_token_amount(request.initial_buy_amount, *reserves, slippage_bps),
                    request.initial_buy_amount,
                )
            },
            Err(_) => true,
        },
{
    match validate_creation_request(request) {
        Ok(()) => (),
        Err(e) => {
            return Err(e);
        },
    }
    let bonding_curve = match get_pda(mint_pubkey, &pumpfun_program()) {
        Ok(a) => a,
        Err(e) => {
            return Err(e);
        },
    };
    let metadata_account = match get_metadata_pda(mint_pubkey) {
        Ok(a) => a,
        Err(e) => {
            return Err(e);
        },
    };
    let associated_bonding_curve = match get_associated_token_address(
        &bonding_curve,
        mint_pubkey,
    ) {
        Ok(a) => a,
        Err(e) => {
            return Err(e);
        },
    };
    let deployer_token_account = match get_associated_token_address(
        &request.creator,
        mint_pubkey,
    ) {
        Ok(a) => a,
        Err(e) => {
            return Err(e);
        },
    };
    let creator_vault = match get_creator_vault_pda(&request.creator) {
        Ok(a) => a,
        Err(e) => {
            return Err(e);
        },
    };
    let token_data = match build_create_instruction_data(
        &request.name,
        &request.symbol,
        &request.uri,
        &request.creator,
    ) {
        Ok(d) => d,
        Err(e) => {
            return Err(e);
        },
    };
    let create_instruction = Instruction {
        program_id: pumpfun_program(),
        accounts: get_create_instruction_accounts(
            mint_pubkey,
            &bonding_curve,
            &associated_bonding_curve,
            &metadata_account,
            &request.creator,
        ),
        data: token_data,
    };
    let ata_instruction = match create_associated_token_account_idempotent(
        &request.creator,
        &request.creator,
        mint_pubkey,
    ) {
        Ok(ix) => ix,
        Err(e) => {
            return Err(e);
        },
    };
    let (tokens_to_receive, max_sol_cost, _) = get_amount_out(
        request.initial_buy_amount,
        reserves.virtual_sol_reserves,
        reserves.virtual_token_reserves,
    );
    let tokens_with_slippage = min_amount_with_slippage(tokens_to_receive, slippage_bps);
    let buy_instruction = build_buy_instruction(
        mint_pubkey,
        &bonding_curve,
        &associated_bonding_curve,
        &deployer_token_account,
        &request.creator,
        &creator_vault,
        tokens_with_slippage,
        max_sol_cost,
    );
    let mut instructions: Vec<Instruction> = Vec::new();
    instructions.push(create_instruction);
    instructions.push(ata_instruction);
    instructions.push(buy_instruction);
    Ok(instructions)
}

/// Assembles one trade from a request. A buy turns `request.amount` base
/// units into tokens and yields `[associate-account, buy]`; a sell turns
/// `request.amount` tokens back into base units and yields
/// `[sell, close-account]`, after rejecting a zero queried balance. A zero
/// amount is rejected before any other work.
pub fn assemble_trade(
    request: &TradeRequest,
    mint_pubkey: &Address,
    user_pubkey: &Address,
    reserves: &VirtualReserves,
    token_balance: u64,
) -> (r: Result<Vec<Instruction>, PumpError>)
    ensures
        request.amount == 0 <==> r == Err::<Vec<Instruction>, PumpError>(PumpError::InvalidAmount),
        (request.direction is Sell && request.amount > 0) ==> (token_balance == 0 <==> r == Err::<
            Vec<Instruction>,
            PumpError,
        >(PumpError::NothingToSell)),
        r is Ok <==> (request.amount > 0 && spec_sell_parameters(
            mint_pubkey@,
            user_pubkey@,
        ) is Some && (request.direction is Sell ==> token_balance > 0)),
        r == Err::<Vec<Instruction>, PumpError>(PumpError::DerivationExhausted) <==> (
        request.amount > 0 && spec_sell_parameters(mint_pubkey@, user_pubkey@) is None && (
        request.direction is Sell ==> token_balance > 0)),
        match r {
            Ok(ixs) => spec_sell_parameters(mint_pubkey@, user_pubkey@) is Some && {
                let p = spec_sell_parameters(mint_pubkey@, user_pubkey@).unwrap();
                if request.direction is Buy {
                    &&& ixs@.len() == 2
                    &&& ata_create_instruction_ok(
                        ixs@[0],
                        user_pubkey@,
                        p.2,
                        user_pubkey@,
                        mint_pubkey@,
                    )
                    &&& buy_instruction_ok(
                        ixs@[1],
                        mint_pubkey@,
                        p.0,
                        p.1,
                        p.2,
                        user_pubkey@,
                        p.3,
                        spec_buy_token_amount(request.amount, *reserves, request.slippage_bps),
                        request.amount,
                    )
                } else {
                    &&& ixs@.len() == 2
                    &&& sell_instruction_ok(
                        ixs@[0],
                        mint_pubkey@,
                        p.0,
                        p.1,
                        p.2,
                        user_pubkey@,
                        p.3,
                        request.amount,
                        spec_final_min_output(request.amount, *reserves, request.slippage_bps),
                    )
                    &&& close_instruction_ok(ixs@[1], p.2, user_pubkey@, user_pubkey@)
                }
            },
            Err(_) => true,
        },
{
    match validate_trade_request(request) {
        Ok(()) => (),
        Err(e) => {
            return Err(e);
        },
    }
    match request.direction {
        TradeDirection::Buy => {
            let (bonding_curve, associated_bonding_curve, user_token_account, creator_vault) =
                match get_sell_parameters(mint_pubkey, user_pubkey) {
                Ok(t) => t,
                Err(e) => {
                    return Err(e);
                },
            };
            let ata_instruction = match create_associated_token_account_idempotent(
                user_pubkey,
                user_pubkey,
                mint_pubkey,
            ) {
                Ok(ix) => ix,
                Err(e) => {
                    return Err(e);
                },
            };
            let (tokens_to_receive, max_sol_cost, _) = get_amount_out(
                request.amount,
                reserves.virtual_sol_reserves,
                reserves.virtual_token_reserves,
            );
            let tokens_with_slippage = min_amount_with_slippage(
                tokens_to_receive,
                request.slippage_bps,
            );
            let buy_instruction = build_buy_instruction(
                mint_pubkey,
                &bonding_curve,
                &associated_bonding_curve,
                &user_token_account,
                user_pubkey,
                &creator_vault,
                tokens_with_slippage,
                max_sol_cost,
            );
            let mut instructions: Vec<Instruction> = Vec::new();
            instructions.push(ata_instruction);
            instructions.push(buy_instruction);
            Ok(instructions)
        },
        TradeDirection::Sell => {
            if token_balance == 0 {
                return Err(PumpError::NothingToSell);
            }
            let (bonding_curve, associated_bonding_curve, user_token_account, creator_vault) =
                match get_sell_parameters(mint_pubkey, user_pubkey) {
                Ok(t) => t,
                Err(e) => {
                    return Err(e);
                },
            };
            build_sell_and_close(
                mint_pubkey,
                &user_token_account,
                user_pubkey,
                &creator_vault,
                reserves,
                request.amount,
                request.slippage_bps,
            )
        },
    }
}

} // verus!
