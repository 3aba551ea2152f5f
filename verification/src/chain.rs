//! The pure half of the chain client: address derivation, instruction
//! building and account decoding, all done by the chain's own crates.
//!
//! Everything here computes on plain values. Reading balances, fetching
//! references and submitting transactions is the caller's part.

use vstd::prelude::*;
use crate::types::Address;
use crate::types::Asset;
use solana_program::program_error::ProgramError;
use solana_program::program_pack::Pack;
use solana_program::pubkey::ParsePubkeyError;
use solana_program::pubkey::Pubkey;
use solana_program::system_instruction;
use spl_associated_token_account::get_associated_token_address;
use spl_associated_token_account::instruction::create_associated_token_account;
use spl_token::instruction::close_account;
use spl_token::instruction::transfer_checked;
use spl_token::state::Account;
use std::str::FromStr;

verus! {

/// One account an instruction touches, with the access it asks for.
#[derive(Clone, Copy, Debug, PartialEq, Eq)]
pub struct AccountRef {
    pub address: Address,
    pub is_signer: bool,
    pub is_writable: bool,
}

/// An instruction ready to be put into a transaction.
#[derive(Clone, Debug, PartialEq, Eq)]
pub struct Instruction {
    pub program: Address,
    pub accounts: Vec<AccountRef>,
    pub data: Vec<u8>,
}

/// The mathematical content of an [`Instruction`].
pub struct InstructionView {
    pub program: Address,
    pub accounts: Seq<AccountRef>,
    pub data: Seq<u8>,
}

impl View for Instruction {
    type V = InstructionView;

    open spec fn view(&self) -> InstructionView {
        InstructionView { program: self.program, accounts: self.accounts@, data: self.data@ }
    }
}

/// Which instruction to build, by its typed arguments.
#[derive(Clone, Copy, Debug, PartialEq, Eq)]
pub enum InstructionPlan {
    /// Move `lamports` of the base currency from `from` to `to`.
    TransferNative { from: Address, to: Address, lamports: u64 },
    /// Move `amount` tokens of `mint` between two token accounts, on the
    /// word of `authority`, the owner of `source`.
    TransferTokenChecked {
        source: Address,
        mint: Address,
        destination: Address,
        authority: Address,
        amount: u64,
        decimals: u8,
    },
    /// Close the token account `account`, owned by `owner`, and send the
    /// lamports that kept it alive to `destination`.
    CloseTokenAccount { account: Address, destination: Address, owner: Address },
    /// Create the token account of `owner` for `mint`, funded by `payer`.
    CreateTokenAccount { payer: Address, owner: Address, mint: Address },
}

/// The arguments of a batch do not name an asset.
#[derive(Clone, Copy, Debug, PartialEq, Eq)]
pub enum AssetError {
    /// A token was named without its number of decimals.
    MissingDecimals,
    /// The token's mint is not a valid address.
    InvalidMint,
}

/// The address of the token account that `owner` holds for `mint`, as
/// `spl_associated_token_account::get_associated_token_address` derives it.
pub uninterp spec fn associated_token_address(owner: Address, mint: Address) -> Address;

/// The token amount that `spl_token::state::Account::unpack` reads out of
/// account data, `None` where it rejects the data.
pub uninterp spec fn unpacked_token_amount(data: Seq<u8>) -> Option<u64>;

/// The address that `Pubkey::from_str` reads out of a text, `None` where it
/// rejects the text.
pub uninterp spec fn parsed_address(text: Seq<char>) -> Option<Address>;

/// The address of the system program.
pub open spec fn system_program() -> Address {
    Address {
        bytes: [
            0u8, 0, 0, 0, 0, 0, 0, 0, 0, 0, 0, 0, 0, 0, 0, 0,
            0, 0, 0, 0, 0, 0, 0, 0, 0, 0, 0, 0, 0, 0, 0, 0,
        ],
    }
}

/// The address of the token program.
pub open spec fn token_program() -> Address {
    Address {
        bytes: [
            6u8, 221, 246, 225, 215, 101, 161, 147, 217, 203, 225, 70, 206, 235, 121, 172,
            28, 180, 133, 237, 95, 91, 55, 145, 58, 140, 245, 133, 126, 255, 0, 169,
        ],
    }
}

/// The address of the program that creates derived token accounts.
pub open spec fn token_account_program() -> Address {
    Address {
        bytes: [
            140u8, 151, 37, 143, 78, 36, 137, 241, 187, 61, 16, 41, 20, 142, 13, 131,
            11, 90, 19, 153, 218, 255, 16, 132, 4, 142, 123, 216, 219, 233, 248, 89,
        ],
    }
}

/// The eight bytes of `value`, least significant first.
pub open spec fn le_bytes(value: u64) -> Seq<u8> {
    seq![
        (value % 0x100) as u8,
        ((value / 0x100) % 0x100) as u8,
        ((value / 0x1_0000) % 0x100) as u8,
        ((value / 0x100_0000) % 0x100) as u8,
        ((value / 0x1_0000_0000) % 0x100) as u8,
        ((value / 0x100_0000_0000) % 0x100) as u8,
        ((value / 0x1_0000_0000_0000) % 0x100) as u8,
        ((value / 0x100_0000_0000_0000) % 0x100) as u8,
    ]
}

/// The number whose eight bytes, least significant first, are `bytes`.
pub open spec fn le_value(bytes: Seq<u8>) -> int
    recommends
        bytes.len() == 8,
{
    bytes[0] as int + 0x100 * (bytes[1] as int + 0x100 * (bytes[2] as int + 0x100 * (bytes[3] as int
        + 0x100 * (bytes[4] as int + 0x100 * (bytes[5] as int + 0x100 * (bytes[6] as int + 0x100
        * (bytes[7] as int)))))))
}

/// An account the instruction may change.
pub open spec fn writable(address: Address, is_signer: bool) -> AccountRef {
    AccountRef { address, is_signer, is_writable: true }
}

/// An account the instruction only reads.
pub open spec fn readonly(address: Address, is_signer: bool) -> AccountRef {
    AccountRef { address, is_signer, is_writable: false }
}

/// A transfer of the base currency: the system program's instruction 2,
/// signed by the sender.
pub open spec fn native_transfer_encoding(from: Address, to: Address, lamports: u64)
    -> InstructionView {
    InstructionView {
        program: system_program(),
        accounts: seq![writable(from, true), writable(to, false)],
        data: seq![2u8, 0, 0, 0] + le_bytes(lamports),
    }
}

/// A checked token transfer: the token program's instruction 12. The
/// authority is listed once as owner and once as the signer.
pub open spec fn token_transfer_encoding(
    source: Address,
    mint: Address,
    destination: Address,
    authority: Address,
    amount: u64,
    decimals: u8,
) -> InstructionView {
    InstructionView {
        program: token_program(),
        accounts: seq![
            writable(source, false),
            readonly(mint, false),
            writable(destination, false),
            readonly(authority, false),
            readonly(authority, true),
        ],
        data: seq![12u8] + le_bytes(amount) + seq![decimals],
    }
}

/// The closing of a token account: the token program's instruction 9. The
/// owner is listed once as owner and once as the signer.
pub open spec fn close_account_encoding(account: Address, destination: Address, owner: Address)
    -> InstructionView {
    InstructionView {
        program: token_program(),
        accounts: seq![
            writable(account, false),
            writable(destination, false),
            readonly(owner, false),
            readonly(owner, true),
        ],
        data: seq![9u8],
    }
}

/// The creation of the token account of `owner` for `mint`: instruction 0
/// of the token account program, paid for and signed by `payer`.
pub open spec fn create_account_encoding(payer: Address, owner: Address, mint: Address)
    -> InstructionView {
    InstructionView {
        program: token_account_program(),
        accounts: seq![
            writable(payer, true),
            writable(associated_token_address(owner, mint), false),
            readonly(owner, false),
            readonly(mint, false),
            readonly(system_program(), false),
            readonly(token_program(), false),
        ],
        data: seq![0u8],
    }
}

impl InstructionPlan {
    /// What the planned instruction holds once it is built.
    pub open spec fn encoding(self) -> InstructionView {
        match self {
            InstructionPlan::TransferNative { from, to, lamports } => native_transfer_encoding(
                from,
                to,
                lamports,
            ),
            InstructionPlan::TransferTokenChecked {
                source,
                mint,
                destination,
                authority,
                amount,
                decimals,
            } => token_transfer_encoding(source, mint, destination, authority, amount, decimals),
            InstructionPlan::CloseTokenAccount { account, destination, owner } =>
                close_account_encoding(account, destination, owner),
            InstructionPlan::CreateTokenAccount { payer, owner, mint } => create_account_encoding(
                payer,
                owner,
                mint,
            ),
        }
    }

    /// Builds the planned instruction.
    pub fn encode(&self) -> (built: Instruction)
        ensures
            built@ == self.encoding(),
    {
        match self {
            InstructionPlan::TransferNative { from, to, lamports } => build_native_transfer(
                from,
                to,
                *lamports,
            ),
            InstructionPlan::TransferTokenChecked {
                source,
                mint,
                destination,
                authority,
                amount,
                decimals,
            } => {
                match build_token_transfer(source, mint, destination, authority, *amount, *decimals) {
                    Ok(built) => built,
                    Err(_) => vstd::pervasive::unreached(),
                }
            },
            InstructionPlan::CloseTokenAccount { account, destination, owner } => {
                match build_close_account(account, destination, owner) {
                    Ok(built) => built,
                    Err(_) => vstd::pervasive::unreached(),
                }
            },
            InstructionPlan::CreateTokenAccount { payer, owner, mint } =>
                build_create_token_account(payer, owner, mint),
        }
    }
}

/// The asset that the arguments of a batch name: the base currency where no
/// token is given, else the token with its number of decimals.
pub open spec fn selected_asset(token_address: Option<Seq<char>>, decimals: Option<u8>) -> Result<
    Asset,
    AssetError,
> {
    match token_address {
        None => Ok(Asset::Native),
        Some(text) => match decimals {
            None => Err(AssetError::MissingDecimals),
            Some(decimals) => match parsed_address(text) {
                Some(mint) => Ok(Asset::Token { mint, decimals }),
                None => Err(AssetError::InvalidMint),
            },
        },
    }
}

/// Reads the asset of a batch out of its arguments.
pub fn select_asset(token_address: Option<&str>, decimals: Option<u8>) -> (selected: Result<
    Asset,
    AssetError,
>)
    ensures
        selected == selected_asset(
            match token_address {
                Some(text) => Some(text@),
                None => None,
            },
            decimals,
        ),
{
    match token_address {
        None => Ok(Asset::Native),
        Some(text) => match decimals {
            None => Err(AssetError::MissingDecimals),
            Some(decimals) => match parse_address(text) {
                Ok(mint) => Ok(Asset::Token { mint, decimals }),
                Err(_) => Err(AssetError::InvalidMint),
            },
        },
    }
}

/// One account of a built instruction, as plain values.
fn account_ref(bytes: [u8; 32], is_signer: bool, is_writable: bool) -> (account: AccountRef)
    ensures
        account == (AccountRef { address: Address { bytes }, is_signer, is_writable }),
{
    AccountRef { address: Address { bytes }, is_signer, is_writable }
}

/// The error type of the chain's program crates.
#[verifier::external_type_specification]
#[verifier::external_body]
pub struct ExProgramError(ProgramError);

/// The error type of address parsing.
#[verifier::external_type_specification]
#[verifier::external_body]
pub struct ExParsePubkeyError(ParsePubkeyError);

/// Calls `spl_associated_token_account::get_associated_token_address`.
///
/// The derivation hashes owner, token program and mint and is a function of
/// its two arguments alone; the result is only named. The outside function
/// panics if none of 255 candidate hashes gives a usable address, which no
/// known input does.
#[verifier::external_body]
pub(crate) fn derive_token_account(owner: &Address, mint: &Address) -> (derived: Address)
    ensures
        derived == associated_token_address(*owner, *mint),
{
    let owner_key = Pubkey::new_from_array(owner.bytes);
    let mint_key = Pubkey::new_from_array(mint.bytes);
    Address { bytes: get_associated_token_address(&owner_key, &mint_key).to_bytes() }
}

/// Calls `solana_program::system_instruction::transfer`.
///
/// Claimed: the instruction addresses the system program, lists the sender
/// as writable signer and the recipient as writable, and carries the
/// four-byte variant index 2 followed by the amount as eight little-endian
/// bytes.
#[verifier::external_body]
fn build_native_transfer(from: &Address, to: &Address, lamports: u64) -> (built: Instruction)
    ensures
        built@ == native_transfer_encoding(*from, *to, lamports),
{
    let from_key = Pubkey::new_from_array(from.bytes);
    let to_key = Pubkey::new_from_array(to.bytes);
    let ix = system_instruction::transfer(&from_key, &to_key, lamports);
    Instruction {
        program: Address { bytes: ix.program_id.to_bytes() },
        accounts: ix.accounts.iter().map(
            |meta| account_ref(meta.pubkey.to_bytes(), meta.is_signer, meta.is_writable),
        ).collect(),
        data: ix.data,
    }
}

/// Calls `spl_token::instruction::transfer_checked` for the token program,
/// with the authority as the one signer.
///
/// Claimed: the call succeeds, since its only failure is a program address
/// other than the token program's; the instruction lists source (writable),
/// mint, destination (writable), authority and the signing authority, and
/// carries the byte 12, the amount as eight little-endian bytes and the
/// decimals.
#[verifier::external_body]
fn build_token_transfer(
    source: &Address,
    mint: &Address,
    destination: &Address,
    authority: &Address,
    amount: u64,
    decimals: u8,
) -> (built: Result<Instruction, ProgramError>)
    ensures
        match built {
            Ok(ix) => ix@ == token_transfer_encoding(
                *source,
                *mint,
                *destination,
                *authority,
                amount,
                decimals,
            ),
            Err(_) => false,
        },
{
    let source_key = Pubkey::new_from_array(source.bytes);
    let mint_key = Pubkey::new_from_array(mint.bytes);
    let destination_key = Pubkey::new_from_array(destination.bytes);
    let authority_key = Pubkey::new_from_array(authority.bytes);
    let signers = [&authority_key];
    let token = spl_token::id();
    transfer_checked(&token, &source_key, &mint_key, &destination_key, &authority_key, &signers, amount, decimals)
        .map(|ix| Instruction {
            program: Address { bytes: ix.program_id.to_bytes() },
            accounts: ix.accounts.iter().map(
                |meta| account_ref(meta.pubkey.to_bytes(), meta.is_signer, meta.is_writable),
            ).collect(),
            data: ix.data,
        })
}

/// Calls `spl_token::instruction::close_account` for the token program,
/// with the owner as the one signer.
///
/// Claimed: the call succeeds, since its only failure is a program address
/// other than the token program's; the instruction lists the account and
/// the destination (both writable), the owner and the signing owner, and
/// carries the single byte 9.
#[verifier::external_body]
fn build_close_account(
    account: &Address,
    destination: &Address,
    owner: &Address,
) -> (built: Result<Instruction, ProgramError>)
    ensures
        match built {
            Ok(ix) => ix@ == close_account_encoding(*account, *destination, *owner),
            Err(_) => false,
        },
{
    let account_key = Pubkey::new_from_array(account.bytes);
    let destination_key = Pubkey::new_from_array(destination.bytes);
    let owner_key = Pubkey::new_from_array(owner.bytes);
    let signers = [&owner_key];
    close_account(&spl_token::id(), &account_key, &destination_key, &owner_key, &signers)
        .map(|ix| Instruction {
            program: Address { bytes: ix.program_id.to_bytes() },
            accounts: ix.accounts.iter().map(
                |meta| account_ref(meta.pubkey.to_bytes(), meta.is_signer, meta.is_writable),
            ).collect(),
            data: ix.data,
        })
}

/// Calls `spl_associated_token_account::instruction::create_associated_token_account`
/// for the token program.
///
/// Claimed: the instruction addresses the token account program, lists the
/// payer (writable signer), the derived token account (writable), the owner,
/// the mint, the system program and the token program, and carries the
/// single byte 0. The derived account is the one that
/// `get_associated_token_address` gives for owner and mint.
#[verifier::external_body]
fn build_create_token_account(
    payer: &Address,
    owner: &Address,
    mint: &Address,
) -> (built: Instruction)
    ensures
        built@ == create_account_encoding(*payer, *owner, *mint),
{
    let payer_key = Pubkey::new_from_array(payer.bytes);
    let owner_key = Pubkey::new_from_array(owner.bytes);
    let mint_key = Pubkey::new_from_array(mint.bytes);
    let ix = create_associated_token_account(&payer_key, &owner_key, &mint_key, &spl_token::id());
    Instruction {
        program: Address { bytes: ix.program_id.to_bytes() },
        accounts: ix.accounts.iter().map(
            |meta| account_ref(meta.pubkey.to_bytes(), meta.is_signer, meta.is_writable),
        ).collect(),
        data: ix.data,
    }
}

/// Calls `spl_token::state::Account::unpack` and picks the amount.
///
/// Claimed: the outcome is a function of the data alone; data of any length
/// but 165 is rejected; an accepted amount is the number held, least
/// significant byte first, in bytes 64 to 71.
#[verifier::external_body]
pub(crate) fn unpack_token_amount(data: &[u8]) -> (unpacked: Result<u64, ProgramError>)
    ensures
        match unpacked {
            Ok(amount) => unpacked_token_amount(data@) == Some(amount) && data@.len() == 165
                && amount == le_value(data@.subrange(64, 72)),
            Err(_) => unpacked_token_amount(data@) is None,
        },
{
    Account::unpack(data).map(|account| account.amount)
}

/// Calls `Pubkey::from_str`.
///
/// Claimed: the outcome is a function of the text alone.
#[verifier::external_body]
pub(crate) fn parse_address(text: &str) -> (parsed: Result<Address, ParsePubkeyError>)
    ensures
        match parsed {
            Ok(address) => parsed_address(text@) == Some(address),
            Err(_) => parsed_address(text@) is None,
        },
{
    Pubkey::from_str(text).map(|key| Address { bytes: key.to_bytes() })
}

} // verus!
