//! The values a batch run is described with: addresses, assets, operations,
//! work items and the outcome every work item ends in.

use vstd::prelude::*;

verus! {

/// A 32-byte account address on the chain.
#[derive(Clone, Copy, Debug, PartialEq, Eq, Hash)]
pub struct Address {
    pub bytes: [u8; 32],
}

impl View for Address {
    type V = Seq<u8>;

    open spec fn view(&self) -> Seq<u8> {
        self.bytes@
    }
}

/// The short-lived reference a transaction carries so that it cannot be
/// replayed. A fresh one is fetched for every submission attempt.
#[derive(Clone, Copy, Debug, PartialEq, Eq, Hash)]
pub struct ReferenceHash {
    pub bytes: [u8; 32],
}

/// The signature under which a transaction was confirmed.
#[derive(Clone, Copy, Debug, PartialEq, Eq, Hash)]
pub struct Signature {
    pub bytes: [u8; 64],
}

/// What is moved, closed or counted.
#[derive(Clone, Copy, Debug, PartialEq, Eq)]
pub enum Asset {
    /// The chain's base currency.
    Native,
    /// A token, held in token accounts derived from owner and mint.
    Token { mint: Address, decimals: u8 },
}

/// The operation a batch applies to every wallet.
#[derive(Clone, Copy, Debug, PartialEq, Eq)]
pub enum Operation {
    /// Send `amount` from the main wallet to the wallet.
    Distribute { amount: u64 },
    /// Sweep whatever the wallet holds back to the main wallet.
    Collect,
    /// Close the wallet's token account if it exists and holds nothing.
    CloseIfEmpty,
    /// Read the wallet's balance and add it to the batch total.
    QueryBalance,
}

/// The unit of work handed to one worker.
#[derive(Clone, Copy, Debug, PartialEq, Eq)]
pub struct WorkItem {
    pub wallet: Address,
    pub operation: Operation,
    pub asset: Asset,
}

/// Why nothing was submitted for a work item. A skip is an expected outcome.
#[derive(Clone, Copy, Debug, PartialEq, Eq)]
pub enum SkipReason {
    /// The wallet entry could not be read from the wallet source.
    UnreadableWallet,
    /// The token account to close does not exist or could not be queried.
    AccountUnavailable,
    /// The token account to close still holds tokens.
    NonZeroBalance,
    /// There is nothing to sweep from the wallet.
    NothingToCollect,
    /// The balance that gates or feeds the operation could not be read.
    BalanceUnavailable,
    /// The operation only reads; its reading went into the batch total.
    NoSubmissionNeeded,
    /// The operation does not apply to the asset.
    NotApplicable,
}

/// Why a work item was given up.
#[derive(Clone, Copy, Debug, PartialEq, Eq)]
pub enum AbandonReason {
    /// No fresh reference could be fetched for a submission attempt.
    ReferenceUnavailable,
    /// The retry policy's attempts were used up before the transaction landed.
    Timeout,
    /// The worker failed, or was handed an event it was not waiting for.
    InternalFailure,
}

/// The one terminal outcome of a work item.
#[derive(Clone, Copy, Debug, PartialEq, Eq)]
pub enum SubmissionOutcome {
    Landed(Signature),
    Abandoned(AbandonReason),
    Skipped(SkipReason),
}

impl SkipReason {
    /// The reason in words.
    pub open spec fn spec_message(self) -> Seq<char> {
        match self {
            SkipReason::UnreadableWallet => "unreadable wallet"@,
            SkipReason::AccountUnavailable => "token account unavailable"@,
            SkipReason::NonZeroBalance => "token account not empty"@,
            SkipReason::NothingToCollect => "nothing to collect"@,
            SkipReason::BalanceUnavailable => "balance unavailable"@,
            SkipReason::NoSubmissionNeeded => "no submission needed"@,
            SkipReason::NotApplicable => "not applicable"@,
        }
    }

    /// The reason in words, for reports.
    pub fn message(&self) -> (message: &'static str)
        ensures
            message@ == self.spec_message(),
    {
        match self {
            SkipReason::UnreadableWallet => "unreadable wallet",
            SkipReason::AccountUnavailable => "token account unavailable",
            SkipReason::NonZeroBalance => "token account not empty",
            SkipReason::NothingToCollect => "nothing to collect",
            SkipReason::BalanceUnavailable => "balance unavailable",
            SkipReason::NoSubmissionNeeded => "no submission needed",
            SkipReason::NotApplicable => "not applicable",
        }
    }
}

impl AbandonReason {
    /// The reason in words.
    pub open spec fn spec_message(self) -> Seq<char> {
        match self {
            AbandonReason::ReferenceUnavailable => "reference unavailable"@,
            AbandonReason::Timeout => "timeout"@,
            AbandonReason::InternalFailure => "internal failure"@,
        }
    }

    /// The reason in words, for reports.
    pub fn message(&self) -> (message: &'static str)
        ensures
            message@ == self.spec_message(),
    {
        match self {
            AbandonReason::ReferenceUnavailable => "reference unavailable",
            AbandonReason::Timeout => "timeout",
            AbandonReason::InternalFailure => "internal failure",
        }
    }
}

} // verus!
