//! Typed instructions and their fixed account lists.
//!
//! An [`Instruction`] names a target program, an ordered list of accounts
//! with signer and writable flags, and an opaque payload. The account
//! ordering and flags are positional ABI: the predicates here state, entry
//! by entry, the exact list each instruction kind must carry, and every
//! builder is proved to produce it.

use vstd::prelude::*;
use crate::PumpError;
use crate::address::Address;
use crate::address::ata_program;
use crate::address::ata_program_id;
use crate::address::get_associated_token_address;
use crate::address::pumpfun_event_authority;
use crate::address::pumpfun_event_authority_id;
use crate::address::pumpfun_fee_recipient;
use crate::address::pumpfun_fee_recipient_id;
use crate::address::pumpfun_global;
use crate::address::pumpfun_global_id;
use crate::address::pumpfun_mint_authority;
use crate::address::pumpfun_mint_authority_id;
use crate::address::pumpfun_program;
use crate::address::pumpfun_program_id;
use crate::address::metaplex_program;
use crate::address::metaplex_program_id;
use crate::address::rent_sysvar;
use crate::address::rent_sysvar_id;
use crate::address::spec_associated_token_address;
use crate::address::system_program;
use crate::address::system_program_id;
use crate::address::token_program;
use crate::address::token_program_id;
use crate::encode::build_buy_instruction_data;
use crate::encode::build_sell_instruction_data;
use crate::encode::buy_payload;
use crate::encode::create_payload;
use crate::encode::sell_payload;

verus! {

/// One entry of an instruction's account list: an address plus its
/// positional signer and writable flags.
#[derive(Clone, Copy, Debug, PartialEq, Eq)]
pub struct AccountEntry {
    pub address: Address,
    pub is_signer: bool,
    pub is_writable: bool,
}

/// A call into an on-chain program, ready for external signing and
/// submission: the target program, the ordered account list, and the
/// binary payload.
#[derive(Clone, Debug, PartialEq, Eq)]
pub struct Instruction {
    pub program_id: Address,
    pub accounts: Vec<AccountEntry>,
    pub data: Vec<u8>,
}

/// The given entry names `address` with exactly the given flags.
pub open spec fn entry_is(e: AccountEntry, address: Seq<u8>, signer: bool, writable: bool) -> bool {
    e.address@ == address && e.is_signer == signer && e.is_writable == writable
}

/// Pushes one account entry.
fn push_entry(accounts: &mut Vec<AccountEntry>, address: Address, signer: bool, writable: bool)
    ensures
        final(accounts)@ == old(accounts)@.push(
            AccountEntry { address, is_signer: signer, is_writable: writable },
        ),
{
    accounts.push(AccountEntry { address, is_signer: signer, is_writable: writable });
}

/// The account list of a sell call, in the program's required order.
pub open spec fn sell_accounts_ok(
    accounts: Seq<AccountEntry>,
    mint: Seq<u8>,
    bonding_curve: Seq<u8>,
    associated_bonding_curve: Seq<u8>,
    user_token_account: Seq<u8>,
    user: Seq<u8>,
    creator_vault: Seq<u8>,
) -> bool {
    &&& accounts.len() == 12
    &&& entry_is(accounts[0], pumpfun_global_id(), false, false)
    &&& entry_is(accounts[1], pumpfun_fee_recipient_id(), false, true)
    &&& entry_is(accounts[2], mint, false, false)
    &&& entry_is(accounts[3], bonding_curve, false, true)
    &&& entry_is(accounts[4], associated_bonding_curve, false, true)
    &&& entry_is(accounts[5], user_token_account, false, true)
    &&& entry_is(accounts[6], user, true, true)
    &&& entry_is(accounts[7], system_program_id(), false, false)
    &&& entry_is(accounts[8], creator_vault, false, true)
    &&& entry_is(accounts[9], token_program_id(), false, false)
    &&& entry_is(accounts[10], pumpfun_event_authority_id(), false, false)
    &&& entry_is(accounts[11], pumpfun_program_id(), false, false)
}

/// A complete sell instruction for the given addresses and amounts.
pub open spec fn sell_instruction_ok(
    ix: Instruction,
    mint: Seq<u8>,
    bonding_curve: Seq<u8>,
    associated_bonding_curve: Seq<u8>,
    user_token_account: Seq<u8>,
    user: Seq<u8>,
    creator_vault: Seq<u8>,
    tokens_to_sell: u64,
    min_sol_output: u64,
) -> bool {
    &&& ix.program_id@ == pumpfun_program_id()
    &&& ix.data@ == sell_payload(tokens_to_sell, min_sol_output)
    &&& sell_accounts_ok(
        ix.accounts@,
        mint,
        bonding_curve,
        associated_bonding_curve,
        user_token_account,
        user,
        creator_vault,
    )
}

/// Builds the sell instruction: the sell payload for `tokens_to_sell` and
/// `min_sol_output`, addressed to the program with the required twelve
/// accounts in order.
pub fn create_sell_all_instruction(
    mint_pubkey: &Address,
    bonding_curve: &Address,
    associated_bonding_curve: &Address,
    user_token_account: &Address,
    user_pubkey: &Address,
    creator_vault: &Address,
    tokens_to_sell: u64,
    min_sol_output: u64,
) -> (r: Instruction)
    ensures
        sell_instruction_ok(
            r,
            mint_pubkey@,
            bonding_curve@,
            associated_bonding_curve@,
            user_token_account@,
            user_pubkey@,
            creator_vault@,
            tokens_to_sell,
            min_sol_output,
        ),
{
    let data = build_sell_instruction_data(tokens_to_sell, min_sol_output);
    let mut accounts: Vec<AccountEntry> = Vec::new();
    push_entry(&mut accounts, pumpfun_global(), false, false);
    push_entry(&mut accounts, pumpfun_fee_recipient(), false, true);
    push_entry(&mut accounts, *mint_pubkey, false, false);
    push_entry(&mut accounts, *bonding_curve, false, true);
    push_entry(&mut accounts, *associated_bonding_curve, false, true);
    push_entry(&mut accounts, *user_token_account, false, true);
    push_entry(&mut accounts, *user_pubkey, true, true);
    push_entry(&mut accounts, system_program(), false, false);
    push_entry(&mut accounts, *creator_vault, false, true);
    push_entry(&mut accounts, token_program(), false, false);
    push_entry(&mut accounts, pumpfun_event_authority(), false, false);
    push_entry(&mut accounts, pumpfun_program(), false, false);
    Instruction { program_id: pumpfun_program(), accounts, data }
}

/// The payload of an SPL token close-account call: the single byte tag of
/// the close operation.
pub open spec fn close_account_payload() -> Seq<u8> {
    seq![9u8]
}

/// The account list of a close-account call: the account to close, the
/// destination of its lamports, and the owner as the sole signer.
pub open spec fn close_accounts_ok(
    accounts: Seq<AccountEntry>,
    account: Seq<u8>,
    destination: Seq<u8>,
    owner: Seq<u8>,
) -> bool {
    &&& accounts.len() == 3
    &&& entry_is(accounts[0], account, false, true)
    &&& entry_is(accounts[1], destination, false, true)
    &&& entry_is(accounts[2], owner, true, false)
}

/// A complete close-account instruction addressed to the SPL token
/// program.
pub open spec fn close_instruction_ok(
    ix: Instruction,
    account: Seq<u8>,
    destination: Seq<u8>,
    owner: Seq<u8>,
) -> bool {
    &&& ix.program_id@ == token_program_id()
    &&& ix.data@ == close_account_payload()
    &&& close_accounts_ok(ix.accounts@, account, destination, owner)
}

/// Builds the instruction that closes the user's token account and returns
/// its rent lamports to the user, exactly as the SPL token program's
/// close-account call expects it.
pub fn create_ata_close_instruction(
    user_token_account: &Address,
    user_pubkey: &Address,
    _mint_pubkey: &Address,
) -> (r: Instruction)
    ensures
        close_instruction_ok(r, user_token_account@, user_pubkey@, user_pubkey@),
{
    let data: Vec<u8> = vec![9u8];
    proof {
        assert(data@ =~= close_account_payload());
    }
    let mut accounts: Vec<AccountEntry> = Vec::new();
    push_entry(&mut accounts, *user_token_account, false, true);
    push_entry(&mut accounts, *user_pubkey, false, true);
    push_entry(&mut accounts, *user_pubkey, true, false);
    Instruction { program_id: token_program(), accounts, data }
}

/// The account list of a buy call, in the program's required order.
pub open spec fn buy_accounts_ok(
    accounts: Seq<AccountEntry>,
    mint: Seq<u8>,
    bonding_curve: Seq<u8>,
    associated_bonding_curve: Seq<u8>,
    user_token_account: Seq<u8>,
    user: Seq<u8>,
    creator_vault: Seq<u8>,
) -> bool {
    &&& accounts.len() == 9
    &&& entry_is(accounts[0], pumpfun_global_id(), false, false)
    &&& entry_is(accounts[1], mint, false, false)
    &&& entry_is(accounts[2], bonding_curve, false, true)
    &&& entry_is(accounts[3], associated_bonding_curve, false, true)
    &&& entry_is(accounts[4], user_token_account, false, true)
    &&& entry_is(accounts[5], user, true, true)
    &&& entry_is(accounts[6], system_program_id(), false, false)
    &&& entry_is(accounts[7], token_program_id(), false, false)
    &&& entry_is(accounts[8], creator_vault, false, true)
}

/// A complete buy instruction for the given addresses and amounts.
pub open spec fn buy_instruction_ok(
    ix: Instruction,
    mint: Seq<u8>,
    bonding_curve: Seq<u8>,
    associated_bonding_curve: Seq<u8>,
    user_token_account: Seq<u8>,
    user: Seq<u8>,
    creator_vault: Seq<u8>,
    tokens_with_slippage: u64,
    max_sol_cost: u64,
) -> bool {
    &&& ix.program_id@ == pumpfun_program_id()
    &&& ix.data@ == buy_payload(tokens_with_slippage, max_sol_cost)
    &&& buy_accounts_ok(
        ix.accounts@,
        mint,
        bonding_curve,
        associated_bonding_curve,
        user_token_account,
        user,
        creator_vault,
    )
}

/// Builds the buy instruction: the buy payload for the slippage-adjusted
/// token amount and the maximum base cost, with the required nine accounts
/// in order.
pub fn build_buy_instruction(
    mint_pubkey: &Address,
    bonding_curve: &Address,
    associated_bonding_curve: &Address,
    user_token_account: &Address,
    user_pubkey: &Address,
    creator_vault: &Address,
    tokens_with_slippage: u64,
    max_sol_cost: u64,
) -> (r: Instruction)
    ensures
        buy_instruction_ok(
            r,
            mint_pubkey@,
            bonding_curve@,
            associated_bonding_curve@,
            user_token_account@,
            user_pubkey@,
            creator_vault@,
            tokens_with_slippage,
            max_sol_cost,
        ),
{
    let data = build_buy_instruction_data(tokens_with_slippage, max_sol_cost);
    let mut accounts: Vec<AccountEntry> = Vec::new();
    push_entry(&mut accounts, pumpfun_global(), false, false);
    push_entry(&mut accounts, *mint_pubkey, false, false);
    push_entry(&mut accounts, *bonding_curve, false, true);
    push_entry(&mut accounts, *associated_bonding_curve, false, true);
    push_entry(&mut accounts, *user_token_account, false, true);
    push_entry(&mut accounts, *user_pubkey, true, true);
    push_entry(&mut accounts, system_program(), false, false);
    push_entry(&mut accounts, token_program(), false, false);
    push_entry(&mut accounts, *creator_vault, false, true);
    Instruction { program_id: pumpfun_program(), accounts, data }
}

/// The account list of a creation call, in the program's required order.
pub open spec fn create_accounts_ok(
    accounts: Seq<AccountEntry>,
    mint: Seq<u8>,
    bonding_curve: Seq<u8>,
    associated_bonding_curve: Seq<u8>,
    metadata_account: Seq<u8>,
    deployer: Seq<u8>,
) -> bool {
    &&& accounts.len() == 14
    &&& entry_is(accounts[0], mint, true, true)
    &&& entry_is(accounts[1], pumpfun_mint_authority_id(), false, false)
    &&& entry_is(accounts[2], bonding_curve, false, true)
    &&& entry_is(accounts[3], associated_bonding_curve, false, true)
    &&& entry_is(accounts[4], pumpfun_global_id(), false, false)
    &&& entry_is(accounts[5], metaplex_program_id(), false, false)
    &&& entry_is(accounts[6], metadata_account, false, true)
    &&& entry_is(accounts[7], deployer, true, true)
    &&& entry_is(accounts[8], system_program_id(), false, false)
    &&& entry_is(accounts[9], token_program_id(), false, false)
    &&& entry_is(accounts[10], ata_program_id(), false, false)
    &&& entry_is(accounts[11], rent_sysvar_id(), false, false)
    &&& entry_is(accounts[12], pumpfun_mint_authority_id(), false, false)
    &&& entry_is(accounts[13], pumpfun_program_id(), false, false)
}

/// Builds the account list of a creation call.
pub fn get_create_instruction_accounts(
    mint_pubkey: &Address,
    bonding_curve: &Address,
    associated_bonding_curve: &Address,
    metadata_account: &Address,
    deployer_pubkey: &Address,
) -> (r: Vec<AccountEntry>)
    ensures
        create_accounts_ok(
            r@,
            mint_pubkey@,
            bonding_curve@,
            associated_bonding_curve@,
            metadata_account@,
            deployer_pubkey@,
        ),
{
    let mut accounts: Vec<AccountEntry> = Vec::new();
    push_entry(&mut accounts, *mint_pubkey, true, true);
    push_entry(&mut accounts, pumpfun_mint_authority(), false, false);
    push_entry(&mut accounts, *bonding_curve, false, true);
    push_entry(&mut accounts, *associated_bonding_curve, false, true);
    push_entry(&mut accounts, pumpfun_global(), false, false);
    push_entry(&mut accounts, metaplex_program(), false, false);
    push_entry(&mut accounts, *metadata_account, false, true);
    push_entry(&mut accounts, *deployer_pubkey, true, true);
    push_entry(&mut accounts, system_program(), false, false);
    push_entry(&mut accounts, token_program(), false, false);
    push_entry(&mut accounts, ata_program(), false, false);
    push_entry(&mut accounts, rent_sysvar(), false, false);
    push_entry(&mut accounts, pumpfun_mint_authority(), false, false);
    push_entry(&mut accounts, pumpfun_program(), false, false);
    accounts
}

/// A complete creation instruction: the creation payload for the given
/// metadata fields and deployer, with the required fourteen accounts in
/// order.
pub open spec fn create_instruction_ok(
    ix: Instruction,
    mint: Seq<u8>,
    bonding_curve: Seq<u8>,
    associated_bonding_curve: Seq<u8>,
    metadata_account: Seq<u8>,
    deployer: Seq<u8>,
    name: Seq<u8>,
    symbol: Seq<u8>,
    uri: Seq<u8>,
) -> bool {
    &&& ix.program_id@ == pumpfun_program_id()
    &&& ix.data@ == create_payload(name, symbol, uri, deployer)
    &&& create_accounts_ok(
        ix.accounts@,
        mint,
        bonding_curve,
        associated_bonding_curve,
        metadata_account,
        deployer,
    )
}

/// The payload of an idempotent associated-token-account creation: the
/// single byte tag of that operation.
pub open spec fn ata_create_idempotent_payload() -> Seq<u8> {
    seq![1u8]
}

/// The account list of an associated-token-account creation.
pub open spec fn ata_create_accounts_ok(
    accounts: Seq<AccountEntry>,
    funder: Seq<u8>,
    associated_token_account: Seq<u8>,
    wallet: Seq<u8>,
    mint: Seq<u8>,
) -> bool {
    &&& accounts.len() == 6
    &&& entry_is(accounts[0], funder, true, true)
    &&& entry_is(accounts[1], associated_token_account, false, true)
    &&& entry_is(accounts[2], wallet, false, false)
    &&& entry_is(accounts[3], mint, false, false)
    &&& entry_is(accounts[4], system_program_id(), false, false)
    &&& entry_is(accounts[5], token_program_id(), false, false)
}

/// A complete idempotent associated-token-account creation addressed to
/// the associated-token-account program.
pub open spec fn ata_create_instruction_ok(
    ix: Instruction,
    funder: Seq<u8>,
    associated_token_account: Seq<u8>,
    wallet: Seq<u8>,
    mint: Seq<u8>,
) -> bool {
    &&& ix.program_id@ == ata_program_id()
    &&& ix.data@ == ata_create_idempotent_payload()
    &&& ata_create_accounts_ok(ix.accounts@, funder, associated_token_account, wallet, mint)
}

/// Builds the instruction that creates `wallet`'s associated token account
/// for `mint` if it does not exist yet, funded by `funding_address`,
/// exactly as the associated-token-account program expects it.
pub fn create_associated_token_account_idempotent(
    funding_address: &Address,
    wallet_address: &Address,
    mint_address: &Address,
) -> (r: Result<Instruction, PumpError>)
    ensures
        match r {
            Ok(ix) => spec_associated_token_address(wallet_address@, mint_address@) is Some
                && ata_create_instruction_ok(
                ix,
                funding_address@,
                spec_associated_token_address(wallet_address@, mint_address@).unwrap(),
                wallet_address@,
                mint_address@,
            ),
            Err(e) => e == PumpError::DerivationExhausted && spec_associated_token_address(
                wallet_address@,
                mint_address@,
            ) is None,
        },
{
    let associated_token_account = match get_associated_token_address(
        wallet_address,
        mint_address,
    ) {
        Ok(a) => a,
        Err(e) => {
            return Err(e);
        },
    };
    let data: Vec<u8> = vec![1u8];
    proof {
        assert(data@ =~= ata_create_idempotent_payload());
    }
    let mut accounts: Vec<AccountEntry> = Vec::new();
    push_entry(&mut accounts, *funding_address, true, true);
    push_entry(&mut accounts, associated_token_account, false, true);
    push_entry(&mut accounts, *wallet_address, false, false);
    push_entry(&mut accounts, *mint_address, false, false);
    push_entry(&mut accounts, system_program(), false, false);
    push_entry(&mut accounts, token_program(), false, false);
    Ok(Instruction { program_id: ata_program(), accounts, data })
}

} // verus!
