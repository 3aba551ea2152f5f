use solana_program::pubkey::Pubkey;
use wallet_batch::chain::select_asset;
use wallet_batch::chain::AccountRef;
use wallet_batch::chain::AssetError;
use wallet_batch::chain::InstructionPlan;
use wallet_batch::tool::BalanceError;
use wallet_batch::tool::Tool;
use wallet_batch::types::Address;
use wallet_batch::types::Asset;
use wallet_batch::types::Operation;
use wallet_batch::types::WorkItem;
use wallet_batch::worker::Job;

const SYSTEM_PROGRAM: [u8; 32] = [0; 32];

const TOKEN_PROGRAM: [u8; 32] = [
    6, 221, 246, 225, 215, 101, 161, 147, 217, 203, 225, 70, 206, 235, 121, 172, 28, 180, 133,
    237, 95, 91, 55, 145, 58, 140, 245, 133, 126, 255, 0, 169,
];

const TOKEN_ACCOUNT_PROGRAM: [u8; 32] = [
    140, 151, 37, 143, 78, 36, 137, 241, 187, 61, 16, 41, 20, 142, 13, 131, 11, 90, 19, 153, 218,
    255, 16, 132, 4, 142, 123, 216, 219, 233, 248, 89,
];

fn chain_address(fill: u8) -> Address {
    Address { bytes: [fill; 32] }
}

fn chain_account(address: Address, is_signer: bool, is_writable: bool) -> AccountRef {
    AccountRef { address, is_signer, is_writable }
}

fn token_account_data(amount: u64, state: u8) -> Vec<u8> {
    let mut data = vec![0u8; 165];
    data[64..72].copy_from_slice(&amount.to_le_bytes());
    data[108] = state;
    data
}

fn derived_by_library(owner: Address, mint: Address) -> Address {
    let item = WorkItem {
        wallet: owner,
        operation: Operation::QueryBalance,
        asset: Asset::Token { mint, decimals: 6 },
    };
    match item.resolve(&chain_address(9)) {
        Job::ReadToken { account } => account,
        other => panic!("unexpected job {:?}", other),
    }
}

#[test]
fn native_transfer_is_encoded_for_the_system_program() {
    let from = chain_address(1);
    let to = chain_address(2);
    let built = InstructionPlan::TransferNative { from, to, lamports: 1_000_000 }.encode();
    assert_eq!(built.program.bytes, SYSTEM_PROGRAM);
    assert_eq!(
        built.accounts,
        vec![chain_account(from, true, true), chain_account(to, false, true)]
    );
    assert_eq!(built.data, vec![2, 0, 0, 0, 64, 66, 15, 0, 0, 0, 0, 0]);
}

#[test]
fn native_transfer_carries_every_byte_of_the_amount() {
    let built = InstructionPlan::TransferNative {
        from: chain_address(1),
        to: chain_address(2),
        lamports: 0x0807_0605_0403_0201,
    }
    .encode();
    assert_eq!(built.data, vec![2, 0, 0, 0, 1, 2, 3, 4, 5, 6, 7, 8]);
}

#[test]
fn token_transfer_is_encoded_for_the_token_program() {
    let source = chain_address(3);
    let mint = chain_address(4);
    let destination = chain_address(5);
    let authority = chain_address(6);
    let built = InstructionPlan::TransferTokenChecked {
        source,
        mint,
        destination,
        authority,
        amount: 258,
        decimals: 9,
    }
    .encode();
    assert_eq!(built.program.bytes, TOKEN_PROGRAM);
    assert_eq!(
        built.accounts,
        vec![
            chain_account(source, false, true),
            chain_account(mint, false, false),
            chain_account(destination, false, true),
            chain_account(authority, false, false),
            chain_account(authority, true, false),
        ]
    );
    assert_eq!(built.data, vec![12, 2, 1, 0, 0, 0, 0, 0, 0, 9]);
}

#[test]
fn closing_is_encoded_for_the_token_program() {
    let account = chain_address(7);
    let owner = chain_address(8);
    let built =
        InstructionPlan::CloseTokenAccount { account, destination: owner, owner }.encode();
    assert_eq!(built.program.bytes, TOKEN_PROGRAM);
    assert_eq!(
        built.accounts,
        vec![
            chain_account(account, false, true),
            chain_account(owner, false, true),
            chain_account(owner, false, false),
            chain_account(owner, true, false),
        ]
    );
    assert_eq!(built.data, vec![9]);
}

#[test]
fn creation_is_encoded_for_the_token_account_program() {
    let payer = chain_address(10);
    let owner = chain_address(11);
    let mint = chain_address(12);
    let built = InstructionPlan::CreateTokenAccount { payer, owner, mint }.encode();
    assert_eq!(built.program.bytes, TOKEN_ACCOUNT_PROGRAM);
    assert_eq!(
        built.accounts,
        vec![
            chain_account(payer, true, true),
            chain_account(derived_by_library(owner, mint), false, true),
            chain_account(owner, false, false),
            chain_account(mint, false, false),
            chain_account(Address { bytes: SYSTEM_PROGRAM }, false, false),
            chain_account(Address { bytes: TOKEN_PROGRAM }, false, false),
        ]
    );
    assert_eq!(built.data, vec![0]);
}

#[test]
fn token_account_is_derived_as_the_chain_derives_it() {
    let owner = chain_address(21);
    let mint = chain_address(22);
    let derived = derived_by_library(owner, mint);
    let expected = spl_associated_token_account::get_associated_token_address(
        &Pubkey::new_from_array(owner.bytes),
        &Pubkey::new_from_array(mint.bytes),
    );
    assert_eq!(derived.bytes, expected.to_bytes());
    assert_ne!(derived, owner);
    assert_ne!(derived, mint);
}

#[test]
fn token_account_depends_on_owner_and_mint() {
    let first = derived_by_library(chain_address(21), chain_address(22));
    let again = derived_by_library(chain_address(21), chain_address(22));
    let other_owner = derived_by_library(chain_address(23), chain_address(22));
    let other_mint = derived_by_library(chain_address(21), chain_address(24));
    assert_eq!(first, again);
    assert_ne!(first, other_owner);
    assert_ne!(first, other_mint);
}

#[test]
fn token_amount_is_read_from_account_data() {
    let data = token_account_data(123_456_789, 1);
    assert_eq!(Tool::get_spl_token_amount(Some(&data)), Ok(123_456_789));
    let empty = token_account_data(0, 1);
    assert_eq!(Tool::get_spl_token_amount(Some(&empty)), Ok(0));
    let frozen = token_account_data(u64::MAX, 2);
    assert_eq!(Tool::get_spl_token_amount(Some(&frozen)), Ok(u64::MAX));
}

#[test]
fn token_amount_of_a_missing_account_is_unavailable() {
    assert_eq!(Tool::get_spl_token_amount(None), Err(BalanceError::AccountUnavailable));
}

#[test]
fn token_amount_of_other_data_is_rejected() {
    let short = vec![0u8; 164];
    assert_eq!(Tool::get_spl_token_amount(Some(&short)), Err(BalanceError::InvalidAccountData));
    let long = vec![0u8; 166];
    assert_eq!(Tool::get_spl_token_amount(Some(&long)), Err(BalanceError::InvalidAccountData));
    let uninitialized = token_account_data(5, 0);
    assert_eq!(
        Tool::get_spl_token_amount(Some(&uninitialized)),
        Err(BalanceError::InvalidAccountData)
    );
    let unknown_state = token_account_data(5, 3);
    assert_eq!(
        Tool::get_spl_token_amount(Some(&unknown_state)),
        Err(BalanceError::InvalidAccountData)
    );
}

#[test]
fn amount_except_gas_sets_rent_and_fee_aside() {
    assert_eq!(Tool::get_sol_amount_except_gas(1_000_000, 890_880, 5_000), Ok(104_120));
    assert_eq!(Tool::get_sol_amount_except_gas(895_880, 890_880, 5_000), Ok(0));
}

#[test]
fn amount_except_gas_needs_a_balance_that_covers_them() {
    assert_eq!(
        Tool::get_sol_amount_except_gas(895_879, 890_880, 5_000),
        Err(BalanceError::InsufficientForFees)
    );
    assert_eq!(
        Tool::get_sol_amount_except_gas(0, 0, 1),
        Err(BalanceError::InsufficientForFees)
    );
    assert_eq!(
        Tool::get_sol_amount_except_gas(u64::MAX, u64::MAX, 1),
        Err(BalanceError::InsufficientForFees)
    );
}

#[test]
fn asset_without_a_token_is_the_base_currency() {
    assert_eq!(select_asset(None, Some(9)), Ok(Asset::Native));
    assert_eq!(select_asset(None, None), Ok(Asset::Native));
}

#[test]
fn asset_with_a_token_holds_its_mint_and_decimals() {
    assert_eq!(
        select_asset(Some("TokenkegQfeZyiNwAJbNbGKPFXCWuBvf9Ss623VQ5DA"), Some(6)),
        Ok(Asset::Token { mint: Address { bytes: TOKEN_PROGRAM }, decimals: 6 })
    );
    assert_eq!(
        select_asset(Some("11111111111111111111111111111111"), Some(0)),
        Ok(Asset::Token { mint: Address { bytes: SYSTEM_PROGRAM }, decimals: 0 })
    );
}

#[test]
fn asset_with_a_token_needs_decimals() {
    assert_eq!(
        select_asset(Some("TokenkegQfeZyiNwAJbNbGKPFXCWuBvf9Ss623VQ5DA"), None),
        Err(AssetError::MissingDecimals)
    );
}

#[test]
fn asset_with_an_invalid_mint_is_rejected() {
    assert_eq!(select_asset(Some("not an address"), Some(9)), Err(AssetError::InvalidMint));
    assert_eq!(select_asset(Some(""), Some(9)), Err(AssetError::InvalidMint));
    assert_eq!(select_asset(Some("abc"), Some(9)), Err(AssetError::InvalidMint));
}
