//! The tool: the entry points of the wallet fleet manager.
//!
//! Each entry point sets up the state machine for one task and leaves the
//! chain I/O to the caller, who carries out the directives.

use vstd::prelude::*;
use crate::batch::entry_for;
use crate::batch::initial_slot;
use crate::batch::Batch;
use crate::batch::Entry;
use crate::batch::WalletEntry;
use crate::chain::unpack_token_amount;
use crate::chain::unpacked_token_amount;
use crate::chain::le_value;
use crate::guard::GuardDirective;
use crate::guard::Provisioner;
use crate::retry::RetryDirective;
use crate::retry::RetryPolicy;
use crate::retry::RetrySubmitter;
use crate::retry::Submission;
use crate::types::Address;
use crate::types::Asset;
use crate::types::Operation;
use crate::worker::Job;

verus! {

/// Why a balance could not be given.
#[derive(Clone, Copy, Debug, PartialEq, Eq)]
pub enum BalanceError {
    /// The account's data could not be fetched.
    AccountUnavailable,
    /// The account's data is not that of a token account.
    InvalidAccountData,
    /// The balance does not cover rent and fee.
    InsufficientForFees,
}

/// One token account to close, or the note that its owner's wallet could
/// not be read.
#[derive(Clone, Copy, Debug, PartialEq, Eq)]
pub enum TokenAccountEntry {
    Account { owner: Address, account: Address },
    Unreadable,
}

/// The fleet manager, with the retry policy of its submissions.
#[derive(Clone, Copy, Debug, PartialEq, Eq)]
pub struct Tool {
    pub policy: RetryPolicy,
}

/// The entry that a token account becomes in a batch that closes the
/// listed accounts, with `main` paying the fees.
pub open spec fn closing_entry(entry: TokenAccountEntry, main: Address) -> Entry {
    match entry {
        TokenAccountEntry::Account { owner, account } => Entry::Ready(
            Job::Close { account, owner, payer: main },
        ),
        TokenAccountEntry::Unreadable => Entry::Unreadable,
    }
}

/// The entry that a wallet becomes in a batch that reads balances.
pub open spec fn reading_entry(wallet: WalletEntry, asset: Asset) -> Entry {
    match wallet {
        WalletEntry::Loaded(address) => entry_for(wallet, address, Operation::QueryBalance, asset),
        WalletEntry::Unreadable => Entry::Unreadable,
    }
}

/// What is left of `balance` once rent and fee are set aside, if it covers
/// them.
pub open spec fn amount_except_gas(balance: u64, rent_minimum: u64, fee: u64) -> Result<
    u64,
    BalanceError,
> {
    if rent_minimum + fee <= balance {
        Ok((balance - rent_minimum - fee) as u64)
    } else {
        Err(BalanceError::InsufficientForFees)
    }
}

impl Tool {
    /// A tool whose submissions run under `policy`.
    pub fn new(policy: RetryPolicy) -> (tool: Tool)
        ensures
            tool.policy == policy,
    {
        Tool { policy }
    }

    /// Starts the retried submission of one instruction.
    pub fn sendtxn_and_watch(submission: Submission, policy: RetryPolicy) -> (started: (
        RetrySubmitter,
        RetryDirective,
    ))
        ensures
            started == RetrySubmitter::spec_begin(submission, policy),
    {
        RetrySubmitter::begin(submission, policy)
    }

    /// Starts the provisioning of the token account that `recipient` holds
    /// for `mint`, with `payer` funding its creation if it is absent.
    pub fn check_token_account(
        payer: Address,
        recipient: Address,
        mint: Address,
        policy: RetryPolicy,
    ) -> (started: (Provisioner, GuardDirective))
        ensures
            started == Provisioner::spec_begin(payer, recipient, mint, policy),
    {
        Provisioner::begin(payer, recipient, mint, policy)
    }

    /// The token balance held in the data of a token account, where
    /// `account_data` is what fetching the account returned.
    pub fn get_spl_token_amount(account_data: Option<&[u8]>) -> (amount: Result<u64, BalanceError>)
        ensures
            match amount {
                Ok(held) => account_data matches Some(data) && unpacked_token_amount(data@) == Some(
                    held,
                ) && data@.len() == 165 && held == le_value(data@.subrange(64, 72)),
                Err(BalanceError::AccountUnavailable) => account_data is None,
                Err(BalanceError::InvalidAccountData) => account_data matches Some(data)
                    && unpacked_token_amount(data@) is None,
                Err(BalanceError::InsufficientForFees) => false,
            },
    {
        match account_data {
            None => Err(BalanceError::AccountUnavailable),
            Some(data) => match unpack_token_amount(data) {
                Ok(held) => Ok(held),
                Err(_) => Err(BalanceError::InvalidAccountData),
            },
        }
    }

    /// The base currency that can leave a wallet holding `balance` when
    /// the rent-exempt minimum stays behind and the fee is paid from it.
    pub fn get_sol_amount_except_gas(balance: u64, rent_minimum: u64, fee: u64) -> (amount: Result<
        u64,
        BalanceError,
    >)
        ensures
            amount == amount_except_gas(balance, rent_minimum, fee),
    {
        match rent_minimum.checked_add(fee) {
            Some(reserved) => match balance.checked_sub(reserved) {
                Some(free) => Ok(free),
                None => Err(BalanceError::InsufficientForFees),
            },
            None => Err(BalanceError::InsufficientForFees),
        }
    }

    /// A batch that sends `amount` of `asset` from `main` to every wallet.
    pub fn distribute(&self, wallets: &Vec<WalletEntry>, main: Address, amount: u64, asset: Asset)
        -> (batch: Batch)
        ensures
            batch.wf(),
            batch.policy() == self.policy,
            batch.slots().len() == wallets@.len(),
            forall|i: int|
                0 <= i < wallets@.len() ==> #[trigger] batch.slots()[i] == initial_slot(
                    entry_for(wallets@[i], main, Operation::Distribute { amount }, asset),
                ),
    {
        Batch::new(wallets, main, Operation::Distribute { amount }, asset, self.policy)
    }

    /// A batch that sweeps whatever every wallet holds of `asset` back to
    /// `main`.
    pub fn collect(&self, wallets: &Vec<WalletEntry>, main: Address, asset: Asset) -> (batch: Batch)
        ensures
            batch.wf(),
            batch.policy() == self.policy,
            batch.slots().len() == wallets@.len(),
            forall|i: int|
                0 <= i < wallets@.len() ==> #[trigger] batch.slots()[i] == initial_slot(
                    entry_for(wallets@[i], main, Operation::Collect, asset),
                ),
    {
        Batch::new(wallets, main, Operation::Collect, asset, self.policy)
    }

    /// A batch that closes the token account that every wallet holds for
    /// `mint`, where it exists and is empty. `main` pays the fees.
    pub fn close(&self, wallets: &Vec<WalletEntry>, main: Address, mint: Address) -> (batch: Batch)
        ensures
            batch.wf(),
            batch.policy() == self.policy,
            batch.slots().len() == wallets@.len(),
            forall|i: int|
                0 <= i < wallets@.len() ==> #[trigger] batch.slots()[i] == initial_slot(
                    entry_for(
                        wallets@[i],
                        main,
                        Operation::CloseIfEmpty,
                        Asset::Token { mint, decimals: 0 },
                    ),
                ),
    {
        Batch::new(
            wallets,
            main,
            Operation::CloseIfEmpty,
            Asset::Token { mint, decimals: 0 },
            self.policy,
        )
    }

    /// A batch that closes every listed token account that exists and is
    /// empty, whatever its mint. `main` pays the fees.
    pub fn close_accounts(&self, accounts: &Vec<TokenAccountEntry>, main: Address) -> (batch: Batch)
        ensures
            batch.wf(),
            batch.policy() == self.policy,
            batch.slots().len() == accounts@.len(),
            forall|i: int|
                0 <= i < accounts@.len() ==> #[trigger] batch.slots()[i] == initial_slot(
                    closing_entry(accounts@[i], main),
                ),
    {
        let mut entries: Vec<Entry> = Vec::new();
        let mut at: usize = 0;
        while at < accounts.len()
            invariant
                at <= accounts@.len(),
                entries@.len() == at,
                forall|i: int|
                    0 <= i < at ==> #[trigger] entries@[i] == closing_entry(accounts@[i], main),
            decreases accounts@.len() - at,
        {
            let entry = match accounts[at] {
                TokenAccountEntry::Account { owner, account } => Entry::Ready(
                    Job::Close { account, owner, payer: main },
                ),
                TokenAccountEntry::Unreadable => Entry::Unreadable,
            };
            entries.push(entry);
            at = at + 1;
        }
        Batch::from_entries(&entries, self.policy)
    }

    /// A batch that reads the balance that every wallet holds of `asset`
    /// and adds the readings up.
    pub fn check_wallet_balance(&self, wallets: &Vec<WalletEntry>, asset: Asset) -> (batch: Batch)
        ensures
            batch.wf(),
            batch.policy() == self.policy,
            batch.slots().len() == wallets@.len(),
            forall|i: int|
                0 <= i < wallets@.len() ==> #[trigger] batch.slots()[i] == initial_slot(
                    reading_entry(wallets@[i], asset),
                ),
    {
        let mut entries: Vec<Entry> = Vec::new();
        let mut at: usize = 0;
        while at < wallets.len()
            invariant
                at <= wallets@.len(),
                entries@.len() == at,
                forall|i: int|
                    0 <= i < at ==> #[trigger] entries@[i] == reading_entry(wallets@[i], asset),
            decreases wallets@.len() - at,
        {
            let entry = match wallets[at] {
                WalletEntry::Loaded(address) => {
                    let item = crate::types::WorkItem {
                        wallet: address,
                        operation: Operation::QueryBalance,
                        asset,
                    };
                    Entry::Ready(item.resolve(&address))
                },
                WalletEntry::Unreadable => Entry::Unreadable,
            };
            entries.push(entry);
            at = at + 1;
        }
        Batch::from_entries(&entries, self.policy)
    }
}

} // verus!
