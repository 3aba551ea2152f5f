//! The worker: what is done for one wallet, from the first chain call to
//! the outcome.
//!
//! A work item is resolved into a job, which names the accounts involved
//! and the direction. The worker then walks the job's steps: provisioning
//! of the recipient's token account, the balance that gates the operation,
//! the retried submission, and the pause that precedes the release of its
//! permit.

use vstd::prelude::*;
use crate::chain::associated_token_address;
use crate::chain::derive_token_account;
use crate::chain::InstructionPlan;
use crate::guard::close_verdict;
use crate::guard::check_closable;
use crate::guard::GuardDirective;
use crate::guard::GuardEvent;
use crate::guard::Provisioner;
use crate::retry::RetryDirective;
use crate::retry::RetryEvent;
use crate::retry::RetryPolicy;
use crate::retry::RetrySubmitter;
use crate::retry::Submission;
use crate::types::AbandonReason;
use crate::types::Address;
use crate::types::Asset;
use crate::types::Operation;
use crate::types::ReferenceHash;
use crate::types::Signature;
use crate::types::SkipReason;
use crate::types::SubmissionOutcome;
use crate::types::WorkItem;

verus! {

/// The pause a worker makes before it reports its outcome, in milliseconds.
/// It keeps the batch under the rate that the chain endpoint accepts.
pub const THROTTLE_MILLIS: u64 = 50;

/// A work item with its accounts and its direction resolved. The sender of
/// a transfer signs it and pays its fee.
#[derive(Clone, Copy, Debug, PartialEq, Eq)]
pub enum Job {
    /// Nothing is to be done for the wallet.
    Skip { reason: SkipReason },
    /// Send base currency: `amount`, or whatever `from` holds if `None`.
    SendNative { from: Address, to: Address, amount: Option<u64> },
    /// Send tokens from `source`, the sender's token account, to the
    /// recipient's token account: `amount`, or whatever `source` holds if
    /// `None`.
    SendToken {
        mint: Address,
        decimals: u8,
        sender: Address,
        recipient: Address,
        source: Address,
        amount: Option<u64>,
    },
    /// Close the token account of `owner` if it exists and is empty. The
    /// owner signs, `payer` pays the fee.
    Close { account: Address, owner: Address, payer: Address },
    /// Read the base currency balance of `wallet`.
    ReadNative { wallet: Address },
    /// Read the balance of the token account `account`.
    ReadToken { account: Address },
}

/// What the chain client reports back to a worker.
#[derive(Clone, Copy, Debug, PartialEq, Eq)]
pub enum Event {
    /// The balance asked for, or `None` if the account does not exist or
    /// the query failed.
    Balance(Option<u64>),
    /// Whether the account asked about exists. A failed query counts as
    /// absent.
    Exists(bool),
    /// The fresh reference, or `None` if it could not be fetched.
    Reference(Option<ReferenceHash>),
    /// The signature of the confirmed transaction, or `None` if the attempt
    /// failed.
    Confirmation(Option<Signature>),
    /// The pause asked for is over.
    Elapsed,
    /// The worker's task died.
    Fault,
}

/// What a worker asks of the chain client next.
#[derive(Clone, Copy, Debug, PartialEq, Eq)]
pub enum Directive {
    QueryNativeBalance(Address),
    QueryTokenBalance(Address),
    CheckAccountExists(Address),
    FetchReference,
    SignAndSubmit { plan: InstructionPlan, signer: Address, payer: Address, reference: ReferenceHash },
    Sleep { millis: u64 },
    /// The worker is done. `balance` is the reading of a job that reads.
    Finish { outcome: SubmissionOutcome, balance: Option<u64> },
}

/// Where a worker stands.
#[derive(Clone, Copy, Debug, PartialEq, Eq)]
pub enum Stage {
    /// The recipient's token account is being provisioned.
    Provisioning(Provisioner),
    /// The balance that gates or feeds the job was asked for. `destination`
    /// is where a transfer that follows will go.
    ReadingBalance { destination: Address },
    /// The job's own submission is under way.
    Submitting(RetrySubmitter),
    /// The outcome is known; the pause before it is reported is running.
    Throttling(SubmissionOutcome),
    Finished(SubmissionOutcome),
}

/// The state of the work on one wallet.
#[derive(Clone, Copy, Debug, PartialEq, Eq)]
pub struct Worker {
    pub job: Job,
    pub policy: RetryPolicy,
    pub stage: Stage,
    /// The balance read by a job that reads.
    pub reading: Option<u64>,
}

impl WorkItem {
    /// The job of this work item in a batch run on behalf of `main`.
    ///
    /// Distribution goes from the main wallet to the wallet, collection the
    /// other way and takes whatever is there. Token accounts are the ones
    /// derived from owner and mint. Closing applies to token accounts only.
    pub open spec fn spec_resolve(self, main: Address) -> Job {
        match self.asset {
            Asset::Native => match self.operation {
                Operation::Distribute { amount } => Job::SendNative {
                    from: main,
                    to: self.wallet,
                    amount: Some(amount),
                },
                Operation::Collect => Job::SendNative { from: self.wallet, to: main, amount: None },
                Operation::CloseIfEmpty => Job::Skip { reason: SkipReason::NotApplicable },
                Operation::QueryBalance => Job::ReadNative { wallet: self.wallet },
            },
            Asset::Token { mint, decimals } => match self.operation {
                Operation::Distribute { amount } => Job::SendToken {
                    mint,
                    decimals,
                    sender: main,
                    recipient: self.wallet,
                    source: associated_token_address(main, mint),
                    amount: Some(amount),
                },
                Operation::Collect => Job::SendToken {
                    mint,
                    decimals,
                    sender: self.wallet,
                    recipient: main,
                    source: associated_token_address(self.wallet, mint),
                    amount: None,
                },
                Operation::CloseIfEmpty => Job::Close {
                    account: associated_token_address(self.wallet, mint),
                    owner: self.wallet,
                    payer: main,
                },
                Operation::QueryBalance => Job::ReadToken {
                    account: associated_token_address(self.wallet, mint),
                },
            },
        }
    }

    /// Resolves the accounts and the direction of this work item.
    pub fn resolve(&self, main: &Address) -> (job: Job)
        ensures
            job == self.spec_resolve(*main),
    {
        match self.asset {
            Asset::Native => match self.operation {
                Operation::Distribute { amount } => Job::SendNative {
                    from: *main,
                    to: self.wallet,
                    amount: Some(amount),
                },
                Operation::Collect => Job::SendNative { from: self.wallet, to: *main, amount: None },
                Operation::CloseIfEmpty => Job::Skip { reason: SkipReason::NotApplicable },
                Operation::QueryBalance => Job::ReadNative { wallet: self.wallet },
            },
            Asset::Token { mint, decimals } => match self.operation {
                Operation::Distribute { amount } => Job::SendToken {
                    mint,
                    decimals,
                    sender: *main,
                    recipient: self.wallet,
                    source: derive_token_account(main, &mint),
                    amount: Some(amount),
                },
                Operation::Collect => Job::SendToken {
                    mint,
                    decimals,
                    sender: self.wallet,
                    recipient: *main,
                    source: derive_token_account(&self.wallet, &mint),
                    amount: None,
                },
                Operation::CloseIfEmpty => Job::Close {
                    account: derive_token_account(&self.wallet, &mint),
                    owner: self.wallet,
                    payer: *main,
                },
                Operation::QueryBalance => Job::ReadToken {
                    account: derive_token_account(&self.wallet, &mint),
                },
            },
        }
    }
}

/// The event as an answer to the guard, if it can be one.
pub open spec fn guard_event(event: Event) -> Option<GuardEvent> {
    match event {
        Event::Exists(exists) => Some(GuardEvent::Exists(exists)),
        Event::Reference(reference) => Some(GuardEvent::Retry(RetryEvent::Reference(reference))),
        Event::Confirmation(signature) => Some(
            GuardEvent::Retry(RetryEvent::Confirmation(signature)),
        ),
        Event::Elapsed => Some(GuardEvent::Retry(RetryEvent::Elapsed)),
        _ => None,
    }
}

/// The event as an answer to the submitter, if it can be one.
pub open spec fn retry_event(event: Event) -> Option<RetryEvent> {
    match event {
        Event::Reference(reference) => Some(RetryEvent::Reference(reference)),
        Event::Confirmation(signature) => Some(RetryEvent::Confirmation(signature)),
        Event::Elapsed => Some(RetryEvent::Elapsed),
        _ => None,
    }
}

impl Worker {
    /// The worker in another stage.
    pub open spec fn at(self, stage: Stage) -> Worker {
        Worker { stage, ..self }
    }

    /// The worker starting a submission.
    pub open spec fn submit(self, submission: Submission) -> (Worker, Directive) {
        (
            self.at(Stage::Submitting(RetrySubmitter::spec_begin(submission, self.policy).0)),
            Directive::FetchReference,
        )
    }

    /// The worker pausing before it reports `outcome`.
    pub open spec fn throttle(self, outcome: SubmissionOutcome) -> (Worker, Directive) {
        (self.at(Stage::Throttling(outcome)), Directive::Sleep { millis: THROTTLE_MILLIS })
    }

    /// The worker reporting `outcome`.
    pub open spec fn finish(self, outcome: SubmissionOutcome) -> (Worker, Directive) {
        (self.at(Stage::Finished(outcome)), Directive::Finish { outcome, balance: self.reading })
    }

    /// The worker given up at once, as after a fault.
    pub open spec fn fail(self) -> (Worker, Directive) {
        self.finish(SubmissionOutcome::Abandoned(AbandonReason::InternalFailure))
    }

    /// The transfer of `amount` that the job stands for, towards
    /// `destination`, signed and paid for by the sender.
    pub open spec fn transfer(self, destination: Address, amount: u64) -> Option<Submission> {
        match self.job {
            Job::SendNative { from, to, .. } => Some(
                Submission {
                    plan: InstructionPlan::TransferNative { from, to, lamports: amount },
                    signer: from,
                    payer: from,
                },
            ),
            Job::SendToken { mint, decimals, sender, source, .. } => Some(
                Submission {
                    plan: InstructionPlan::TransferTokenChecked {
                        source,
                        mint,
                        destination,
                        authority: sender,
                        amount,
                        decimals,
                    },
                    signer: sender,
                    payer: sender,
                },
            ),
            _ => None,
        }
    }

    /// The worker starting the transfer of `amount` towards `destination`.
    pub open spec fn send(self, destination: Address, amount: u64) -> (Worker, Directive) {
        match self.transfer(destination, amount) {
            Some(submission) => self.submit(submission),
            None => self.fail(),
        }
    }

    /// The worker before its first chain call, and that call.
    ///
    /// A transfer of a given amount of base currency is submitted at once.
    /// A token transfer first has the recipient's token account provisioned.
    /// Collection, closing and reading start with the balance.
    pub open spec fn spec_begin(job: Job, policy: RetryPolicy) -> (Worker, Directive) {
        let idle = Worker {
            job,
            policy,
            stage: Stage::Finished(SubmissionOutcome::Abandoned(AbandonReason::InternalFailure)),
            reading: None,
        };
        match job {
            Job::Skip { reason } => idle.throttle(SubmissionOutcome::Skipped(reason)),
            Job::SendNative { from, to, amount } => match amount {
                Some(lamports) => idle.send(to, lamports),
                None => (
                    idle.at(Stage::ReadingBalance { destination: to }),
                    Directive::QueryNativeBalance(from),
                ),
            },
            Job::SendToken { mint, sender, recipient, .. } => {
                let guard = Provisioner::spec_begin(sender, recipient, mint, policy).0;
                (idle.at(Stage::Provisioning(guard)), Directive::CheckAccountExists(guard.account))
            },
            Job::Close { account, owner, .. } => (
                idle.at(Stage::ReadingBalance { destination: owner }),
                Directive::QueryTokenBalance(account),
            ),
            Job::ReadNative { wallet } => (
                idle.at(Stage::ReadingBalance { destination: wallet }),
                Directive::QueryNativeBalance(wallet),
            ),
            Job::ReadToken { account } => (
                idle.at(Stage::ReadingBalance { destination: account }),
                Directive::QueryTokenBalance(account),
            ),
        }
    }

    /// The worker once the recipient's token account `account` is there:
    /// a given amount is sent, a collection asks for the source's balance.
    pub open spec fn provisioned(self, account: Address) -> (Worker, Directive) {
        match self.job {
            Job::SendToken { source, amount, .. } => match amount {
                Some(tokens) => self.send(account, tokens),
                None => (
                    self.at(Stage::ReadingBalance { destination: account }),
                    Directive::QueryTokenBalance(source),
                ),
            },
            _ => self.fail(),
        }
    }

    /// The worker once the balance it asked for is known.
    ///
    /// A token account is closed only if it exists and holds exactly zero.
    /// A collection sends the whole balance and is skipped where there is
    /// none. A reading is kept for the batch total. A balance that cannot
    /// be read is a skip.
    pub open spec fn balance_known(self, destination: Address, balance: Option<u64>) -> (
        Worker,
        Directive,
    ) {
        match self.job {
            Job::Close { account, owner, payer } => match close_verdict(balance) {
                Ok(_) => self.submit(
                    Submission {
                        plan: InstructionPlan::CloseTokenAccount {
                            account,
                            destination: owner,
                            owner,
                        },
                        signer: owner,
                        payer,
                    },
                ),
                Err(reason) => self.throttle(SubmissionOutcome::Skipped(reason)),
            },
            Job::SendNative { .. } | Job::SendToken { .. } => match balance {
                Some(held) => if held > 0 {
                    self.send(destination, held)
                } else {
                    self.throttle(SubmissionOutcome::Skipped(SkipReason::NothingToCollect))
                },
                None => self.throttle(SubmissionOutcome::Skipped(SkipReason::BalanceUnavailable)),
            },
            Job::ReadNative { .. } | Job::ReadToken { .. } => match balance {
                Some(held) => (Worker { reading: Some(held), ..self }).throttle(
                    SubmissionOutcome::Skipped(SkipReason::NoSubmissionNeeded),
                ),
                None => self.throttle(SubmissionOutcome::Skipped(SkipReason::BalanceUnavailable)),
            },
            Job::Skip { .. } => self.fail(),
        }
    }

    /// The transition: the state after `event`, and what to do next.
    ///
    /// A finished worker repeats its outcome. A fault, or any other event
    /// that does not answer the pending directive, ends the work at once as
    /// an internal failure. Otherwise the stage decides: the guard's and the
    /// submitter's directives are passed on, a landed or abandoned
    /// submission and every skip lead into the pause, and the end of the
    /// pause reports the outcome.
    pub open spec fn spec_step(self, event: Event) -> (Worker, Directive) {
        match self.stage {
            Stage::Finished(outcome) => self.finish(outcome),
            Stage::Provisioning(guard) => match guard_event(event) {
                Some(answer) => if !guard.expects(answer) {
                    self.fail()
                } else {
                    let next = guard.spec_step(answer);
                    let waiting = self.at(Stage::Provisioning(next.0));
                    match next.1 {
                        GuardDirective::CheckAccountExists(account) => (
                            waiting,
                            Directive::CheckAccountExists(account),
                        ),
                        GuardDirective::FetchReference => (waiting, Directive::FetchReference),
                        GuardDirective::SignAndSubmit { plan, signer, payer, reference } => (
                            waiting,
                            Directive::SignAndSubmit { plan, signer, payer, reference },
                        ),
                        GuardDirective::Backoff { millis } => (waiting, Directive::Sleep { millis }),
                        GuardDirective::Ready(account) => self.provisioned(account),
                    }
                },
                None => self.fail(),
            },
            Stage::ReadingBalance { destination } => match event {
                Event::Balance(balance) => self.balance_known(destination, balance),
                _ => self.fail(),
            },
            Stage::Submitting(submitter) => match retry_event(event) {
                Some(answer) => if !submitter.expects(answer) {
                    self.fail()
                } else {
                    let next = submitter.spec_step(answer);
                    let waiting = self.at(Stage::Submitting(next.0));
                    match next.1 {
                        RetryDirective::FetchReference => (waiting, Directive::FetchReference),
                        RetryDirective::SignAndSubmit { plan, signer, payer, reference } => (
                            waiting,
                            Directive::SignAndSubmit { plan, signer, payer, reference },
                        ),
                        RetryDirective::Backoff { millis } => (waiting, Directive::Sleep { millis }),
                        RetryDirective::Done(Ok(signature)) => self.throttle(
                            SubmissionOutcome::Landed(signature),
                        ),
                        RetryDirective::Done(Err(reason)) => self.throttle(
                            SubmissionOutcome::Abandoned(reason),
                        ),
                    }
                },
                None => self.fail(),
            },
            Stage::Throttling(outcome) => match event {
                Event::Elapsed => self.finish(outcome),
                _ => self.fail(),
            },
        }
    }

    /// The outcome, once the worker has finished.
    pub open spec fn outcome(self) -> Option<SubmissionOutcome> {
        match self.stage {
            Stage::Finished(outcome) => Some(outcome),
            _ => None,
        }
    }

    /// Starts the work on a job.
    pub fn begin(job: Job, policy: RetryPolicy) -> (started: (Worker, Directive))
        ensures
            started == Worker::spec_begin(job, policy),
    {
        let idle = Worker {
            job,
            policy,
            stage: Stage::Finished(SubmissionOutcome::Abandoned(AbandonReason::InternalFailure)),
            reading: None,
        };
        match job {
            Job::Skip { reason } => idle.pause(SubmissionOutcome::Skipped(reason)),
            Job::SendNative { from, to, amount } => match amount {
                Some(lamports) => idle.start_transfer(to, lamports),
                None => (
                    idle.moved(Stage::ReadingBalance { destination: to }),
                    Directive::QueryNativeBalance(from),
                ),
            },
            Job::SendToken { mint, sender, recipient, .. } => {
                let guard = Provisioner::begin(sender, recipient, mint, policy).0;
                (
                    idle.moved(Stage::Provisioning(guard)),
                    Directive::CheckAccountExists(guard.account),
                )
            },
            Job::Close { account, owner, .. } => (
                idle.moved(Stage::ReadingBalance { destination: owner }),
                Directive::QueryTokenBalance(account),
            ),
            Job::ReadNative { wallet } => (
                idle.moved(Stage::ReadingBalance { destination: wallet }),
                Directive::QueryNativeBalance(wallet),
            ),
            Job::ReadToken { account } => (
                idle.moved(Stage::ReadingBalance { destination: account }),
                Directive::QueryTokenBalance(account),
            ),
        }
    }

    /// Takes what the chain client reports and says what to do next.
    pub fn step(self, event: Event) -> (next: (Worker, Directive))
        ensures
            next == self.spec_step(event),
    {
        match self.stage {
            Stage::Finished(outcome) => self.report(outcome),
            Stage::Provisioning(guard) => {
                let answer = match event {
                    Event::Exists(exists) => GuardEvent::Exists(exists),
                    Event::Reference(reference) => GuardEvent::Retry(RetryEvent::Reference(reference)),
                    Event::Confirmation(signature) => GuardEvent::Retry(
                        RetryEvent::Confirmation(signature),
                    ),
                    Event::Elapsed => GuardEvent::Retry(RetryEvent::Elapsed),
                    _ => {
                        return self.give_up();
                    },
                };
                if !guard.answers(&answer) {
                    return self.give_up();
                }
                let next = guard.step(answer);
                let waiting = self.moved(Stage::Provisioning(next.0));
                match next.1 {
                    GuardDirective::CheckAccountExists(account) => (
                        waiting,
                        Directive::CheckAccountExists(account),
                    ),
                    GuardDirective::FetchReference => (waiting, Directive::FetchReference),
                    GuardDirective::SignAndSubmit { plan, signer, payer, reference } => (
                        waiting,
                        Directive::SignAndSubmit { plan, signer, payer, reference },
                    ),
                    GuardDirective::Backoff { millis } => (waiting, Directive::Sleep { millis }),
                    GuardDirective::Ready(account) => self.after_provisioning(account),
                }
            },
            Stage::ReadingBalance { destination } => match event {
                Event::Balance(balance) => self.after_balance(destination, balance),
                _ => self.give_up(),
            },
            Stage::Submitting(submitter) => {
                let answer = match event {
                    Event::Reference(reference) => RetryEvent::Reference(reference),
                    Event::Confirmation(signature) => RetryEvent::Confirmation(signature),
                    Event::Elapsed => RetryEvent::Elapsed,
                    _ => {
                        return self.give_up();
                    },
                };
                if !submitter.answers(&answer) {
                    return self.give_up();
                }
                let next = submitter.step(answer);
                let waiting = self.moved(Stage::Submitting(next.0));
                match next.1 {
                    RetryDirective::FetchReference => (waiting, Directive::FetchReference),
                    RetryDirective::SignAndSubmit { plan, signer, payer, reference } => (
                        waiting,
                        Directive::SignAndSubmit { plan, signer, payer, reference },
                    ),
                    RetryDirective::Backoff { millis } => (waiting, Directive::Sleep { millis }),
                    RetryDirective::Done(Ok(signature)) => self.pause(
                        SubmissionOutcome::Landed(signature),
                    ),
                    RetryDirective::Done(Err(reason)) => self.pause(
                        SubmissionOutcome::Abandoned(reason),
                    ),
                }
            },
            Stage::Throttling(outcome) => match event {
                Event::Elapsed => self.report(outcome),
                _ => self.give_up(),
            },
        }
    }

    /// Whether the worker has reported its outcome.
    pub fn is_finished(&self) -> (finished: bool)
        ensures
            finished == self.outcome().is_some(),
    {
        match self.stage {
            Stage::Finished(_) => true,
            _ => false,
        }
    }

    fn moved(self, stage: Stage) -> (next: Worker)
        ensures
            next == self.at(stage),
    {
        Worker { job: self.job, policy: self.policy, stage, reading: self.reading }
    }

    fn start_submission(self, submission: Submission) -> (next: (Worker, Directive))
        ensures
            next == self.submit(submission),
    {
        let started = RetrySubmitter::begin(submission, self.policy);
        (self.moved(Stage::Submitting(started.0)), Directive::FetchReference)
    }

    fn pause(self, outcome: SubmissionOutcome) -> (next: (Worker, Directive))
        ensures
            next == self.throttle(outcome),
    {
        (self.moved(Stage::Throttling(outcome)), Directive::Sleep { millis: THROTTLE_MILLIS })
    }

    fn report(self, outcome: SubmissionOutcome) -> (next: (Worker, Directive))
        ensures
            next == self.finish(outcome),
    {
        (self.moved(Stage::Finished(outcome)), Directive::Finish { outcome, balance: self.reading })
    }

    fn give_up(self) -> (next: (Worker, Directive))
        ensures
            next == self.fail(),
    {
        self.report(SubmissionOutcome::Abandoned(AbandonReason::InternalFailure))
    }

    fn start_transfer(self, destination: Address, amount: u64) -> (next: (Worker, Directive))
        ensures
            next == self.send(destination, amount),
    {
        match self.job {
            Job::SendNative { from, to, .. } => self.start_submission(
                Submission {
                    plan: InstructionPlan::TransferNative { from, to, lamports: amount },
                    signer: from,
                    payer: from,
                },
            ),
            Job::SendToken { mint, decimals, sender, source, .. } => self.start_submission(
                Submission {
                    plan: InstructionPlan::TransferTokenChecked {
                        source,
                        mint,
                        destination,
                        authority: sender,
                        amount,
                        decimals,
                    },
                    signer: sender,
                    payer: sender,
                },
            ),
            _ => self.give_up(),
        }
    }

    fn after_provisioning(self, account: Address) -> (next: (Worker, Directive))
        ensures
            next == self.provisioned(account),
    {
        match self.job {
            Job::SendToken { source, amount, .. } => match amount {
                Some(tokens) => self.start_transfer(account, tokens),
                None => (
                    self.moved(Stage::ReadingBalance { destination: account }),
                    Directive::QueryTokenBalance(source),
                ),
            },
            _ => self.give_up(),
        }
    }

    fn after_balance(self, destination: Address, balance: Option<u64>) -> (next: (
        Worker,
        Directive,
    ))
        ensures
            next == self.balance_known(destination, balance),
    {
        match self.job {
            Job::Close { account, owner, payer } => match check_closable(balance) {
                Ok(_) => self.start_submission(
                    Submission {
                        plan: InstructionPlan::CloseTokenAccount {
                            account,
                            destination: owner,
                            owner,
                        },
                        signer: owner,
                        payer,
                    },
                ),
                Err(reason) => self.pause(SubmissionOutcome::Skipped(reason)),
            },
            Job::SendNative { .. } | Job::SendToken { .. } => match balance {
                Some(held) => if held > 0 {
                    self.start_transfer(destination, held)
                } else {
                    self.pause(SubmissionOutcome::Skipped(SkipReason::NothingToCollect))
                },
                None => self.pause(SubmissionOutcome::Skipped(SkipReason::BalanceUnavailable)),
            },
            Job::ReadNative { .. } | Job::ReadToken { .. } => match balance {
                Some(held) => {
                    let kept = Worker {
                        job: self.job,
                        policy: self.policy,
                        stage: self.stage,
                        reading: Some(held),
                    };
                    kept.pause(SubmissionOutcome::Skipped(SkipReason::NoSubmissionNeeded))
                },
                None => self.pause(SubmissionOutcome::Skipped(SkipReason::BalanceUnavailable)),
            },
            Job::Skip { .. } => self.give_up(),
        }
    }
}

/// What the chain client reports for `directive` when the call fails: no
/// balance, no account, no reference, no confirmation. Pauses still end.
pub open spec fn failing_answer(directive: Directive) -> Event {
    match directive {
        Directive::QueryNativeBalance(_) => Event::Balance(None),
        Directive::QueryTokenBalance(_) => Event::Balance(None),
        Directive::CheckAccountExists(_) => Event::Exists(false),
        Directive::FetchReference => Event::Reference(None),
        Directive::SignAndSubmit { .. } => Event::Confirmation(None),
        Directive::Sleep { .. } => Event::Elapsed,
        Directive::Finish { .. } => Event::Elapsed,
    }
}

/// One step of a worker all of whose chain calls fail.
pub open spec fn step_failing(state: (Worker, Directive)) -> (Worker, Directive) {
    state.0.spec_step(failing_answer(state.1))
}

/// The worker after closing has been tried on a chain that answers: the
/// balance query returns `balance`, and a submission, if one is made, is
/// confirmed at its first attempt under `signature`.
pub open spec fn close_pass(
    job: Job,
    policy: RetryPolicy,
    balance: Option<u64>,
    reference: ReferenceHash,
    signature: Signature,
) -> Worker {
    let asked = Worker::spec_begin(job, policy).0.spec_step(Event::Balance(balance));
    if asked.1 is FetchReference {
        asked.0.spec_step(Event::Reference(Some(reference))).0.spec_step(
            Event::Confirmation(Some(signature)),
        ).0.spec_step(Event::Elapsed).0
    } else {
        asked.0.spec_step(Event::Elapsed).0
    }
}

/// What a balance query for `account` returns on a chain whose token
/// accounts and their balances are `ledger`.
pub open spec fn observed(ledger: Map<Address, u64>, account: Address) -> Option<u64> {
    if ledger.dom().contains(account) {
        Some(ledger[account])
    } else {
        None
    }
}

/// What the chain client reports for `directive` on a chain that answers:
/// the account asked about exists or not as `exists` says, every balance is
/// `balance`, the reference is `reference`, and every submission is
/// confirmed under `signature`.
pub open spec fn answer_of(
    directive: Directive,
    exists: bool,
    balance: u64,
    reference: ReferenceHash,
    signature: Signature,
) -> Event {
    match directive {
        Directive::QueryNativeBalance(_) => Event::Balance(Some(balance)),
        Directive::QueryTokenBalance(_) => Event::Balance(Some(balance)),
        Directive::CheckAccountExists(_) => Event::Exists(exists),
        Directive::FetchReference => Event::Reference(Some(reference)),
        Directive::SignAndSubmit { .. } => Event::Confirmation(Some(signature)),
        Directive::Sleep { .. } => Event::Elapsed,
        Directive::Finish { .. } => Event::Elapsed,
    }
}

/// The state after `steps` answers of a chain that answers.
pub open spec fn run_answered(
    state: (Worker, Directive),
    steps: nat,
    exists: bool,
    balance: u64,
    reference: ReferenceHash,
    signature: Signature,
) -> (Worker, Directive)
    decreases steps,
{
    if steps == 0 {
        state
    } else {
        let before = run_answered(state, (steps - 1) as nat, exists, balance, reference, signature);
        before.0.spec_step(answer_of(before.1, exists, balance, reference, signature))
    }
}

/// A submission that a worker starts on a chain that answers has landed,
/// and the worker has reported it, after three answers: the reference, the
/// confirmation and the end of the pause.
proof fn lemma_answered_submission_lands(
    worker: Worker,
    submission: Submission,
    exists: bool,
    balance: u64,
    reference: ReferenceHash,
    signature: Signature,
)
    ensures
        run_answered(
            worker.submit(submission),
            3,
            exists,
            balance,
            reference,
            signature,
        ).0.stage == Stage::Finished(SubmissionOutcome::Landed(signature)),
{
    let start = worker.submit(submission);
    let signing = run_answered(start, 1, exists, balance, reference, signature);
    assert(signing == start.0.spec_step(Event::Reference(Some(reference)))) by {
        reveal_with_fuel(run_answered, 2);
    }
    assert(signing.1 is SignAndSubmit);
    let pausing = run_answered(start, 2, exists, balance, reference, signature);
    assert(pausing == signing.0.spec_step(Event::Confirmation(Some(signature)))) by {
        reveal_with_fuel(run_answered, 2);
    }
    assert(pausing.0.stage == Stage::Throttling(SubmissionOutcome::Landed(signature)));
    assert(pausing.1 is Sleep);
    assert(run_answered(start, 3, exists, balance, reference, signature)
        == pausing.0.spec_step(Event::Elapsed)) by {
        reveal_with_fuel(run_answered, 2);
    }
}

/// A worker that has reported stays with its outcome however many answers
/// follow.
proof fn lemma_answered_outcome_stays(
    state: (Worker, Directive),
    steps: nat,
    exists: bool,
    balance: u64,
    reference: ReferenceHash,
    signature: Signature,
)
    requires
        state.0.stage is Finished,
    ensures
        run_answered(state, steps, exists, balance, reference, signature).0.stage == state.0.stage,
    decreases steps,
{
    if steps > 0 {
        lemma_answered_outcome_stays(
            state,
            (steps - 1) as nat,
            exists,
            balance,
            reference,
            signature,
        );
    }
}

/// Answers given one after the other can be given in two runs.
proof fn lemma_answered_runs_compose(
    state: (Worker, Directive),
    first: nat,
    second: nat,
    exists: bool,
    balance: u64,
    reference: ReferenceHash,
    signature: Signature,
)
    ensures
        run_answered(state, first + second, exists, balance, reference, signature) == run_answered(
            run_answered(state, first, exists, balance, reference, signature),
            second,
            exists,
            balance,
            reference,
            signature,
        ),
    decreases second,
{
    if second > 0 {
        lemma_answered_runs_compose(
            state,
            first,
            (second - 1) as nat,
            exists,
            balance,
            reference,
            signature,
        );
        assert(first + second - 1 == first + (second - 1));
    }
}

/// A worker that starts a submission after `before` answers has landed
/// after seven, if seven leave room for the three that the submission
/// takes.
proof fn lemma_answered_lands_from(
    start: (Worker, Directive),
    before: nat,
    worker: Worker,
    submission: Submission,
    exists: bool,
    balance: u64,
    reference: ReferenceHash,
    signature: Signature,
)
    requires
        before <= 4,
        run_answered(start, before, exists, balance, reference, signature) == worker.submit(
            submission,
        ),
    ensures
        run_answered(start, 7, exists, balance, reference, signature).0.outcome() == Some(
            SubmissionOutcome::Landed(signature),
        ),
{
    let submitting = worker.submit(submission);
    lemma_answered_submission_lands(worker, submission, exists, balance, reference, signature);
    let landed = run_answered(submitting, 3, exists, balance, reference, signature);
    lemma_answered_runs_compose(start, before, 3, exists, balance, reference, signature);
    lemma_answered_outcome_stays(
        landed,
        (4 - before) as nat,
        exists,
        balance,
        reference,
        signature,
    );
    lemma_answered_runs_compose(
        start,
        before + 3,
        (4 - before) as nat,
        exists,
        balance,
        reference,
        signature,
    );
}

/// A wallet whose chain calls are answered lands: a transfer, of a given
/// amount or of a balance that is not zero, has landed under the signature
/// of its confirmation after seven answers at most, whether the recipient's
/// token account was there or had to be created, and whatever happens to
/// other wallets.
pub proof fn lemma_answered_transfer_lands(
    job: Job,
    policy: RetryPolicy,
    exists: bool,
    balance: u64,
    reference: ReferenceHash,
    signature: Signature,
)
    requires
        job is SendNative || job is SendToken,
        balance > 0,
    ensures
        run_answered(
            Worker::spec_begin(job, policy),
            7,
            exists,
            balance,
            reference,
            signature,
        ).0.outcome() == Some(SubmissionOutcome::Landed(signature)),
{
    let start = Worker::spec_begin(job, policy);
    let idle = Worker {
        job,
        policy,
        stage: Stage::Finished(SubmissionOutcome::Abandoned(AbandonReason::InternalFailure)),
        reading: None,
    };
    let s1 = run_answered(start, 1, exists, balance, reference, signature);
    let s2 = run_answered(start, 2, exists, balance, reference, signature);
    let s3 = run_answered(start, 3, exists, balance, reference, signature);
    let s4 = run_answered(start, 4, exists, balance, reference, signature);
    assert(run_answered(start, 0, exists, balance, reference, signature) == start);
    assert(s1 == start.0.spec_step(answer_of(start.1, exists, balance, reference, signature))) by {
        reveal_with_fuel(run_answered, 2);
    }
    assert(s2 == s1.0.spec_step(answer_of(s1.1, exists, balance, reference, signature))) by {
        reveal_with_fuel(run_answered, 2);
    }
    assert(s3 == s2.0.spec_step(answer_of(s2.1, exists, balance, reference, signature))) by {
        reveal_with_fuel(run_answered, 2);
    }
    assert(s4 == s3.0.spec_step(answer_of(s3.1, exists, balance, reference, signature))) by {
        reveal_with_fuel(run_answered, 2);
    }
    match job {
        Job::SendNative { from, to, amount } => {
            match amount {
                Some(lamports) => {
                    let submission = idle.transfer(to, lamports)->Some_0;
                    lemma_answered_lands_from(
                        start,
                        0,
                        idle,
                        submission,
                        exists,
                        balance,
                        reference,
                        signature,
                    );
                },
                None => {
                    let reading = start.0;
                    let submission = reading.transfer(to, balance)->Some_0;
                    assert(s1 == reading.submit(submission));
                    lemma_answered_lands_from(
                        start,
                        1,
                        reading,
                        submission,
                        exists,
                        balance,
                        reference,
                        signature,
                    );
                },
            }
        },
        Job::SendToken { mint, sender, recipient, source, amount, .. } => {
            let account = associated_token_address(recipient, mint);
            let provisioning = start.0;
            assert(start.1 == Directive::CheckAccountExists(account));
            if exists {
                match amount {
                    Some(tokens) => {
                        let submission = provisioning.transfer(account, tokens)->Some_0;
                        assert(s1 == provisioning.submit(submission));
                        lemma_answered_lands_from(
                            start,
                            1,
                            provisioning,
                            submission,
                            exists,
                            balance,
                            reference,
                            signature,
                        );
                    },
                    None => {
                        assert(s1.1 == Directive::QueryTokenBalance(source));
                        let reading = s1.0;
                        let submission = reading.transfer(account, balance)->Some_0;
                        assert(s2 == reading.submit(submission));
                        lemma_answered_lands_from(
                            start,
                            2,
                            reading,
                            submission,
                            exists,
                            balance,
                            reference,
                            signature,
                        );
                    },
                }
            } else {
                assert(s1.1 == Directive::FetchReference);
                assert(s1.0.stage is Provisioning);
                assert(s2.1 is SignAndSubmit);
                assert(s2.0.stage is Provisioning);
                let creating = s2.0;
                match amount {
                    Some(tokens) => {
                        let submission = creating.transfer(account, tokens)->Some_0;
                        assert(s3 == creating.submit(submission));
                        lemma_answered_lands_from(
                            start,
                            3,
                            creating,
                            submission,
                            exists,
                            balance,
                            reference,
                            signature,
                        );
                    },
                    None => {
                        assert(s3.1 == Directive::QueryTokenBalance(source));
                        let reading = s3.0;
                        let submission = reading.transfer(account, balance)->Some_0;
                        assert(s4 == reading.submit(submission));
                        lemma_answered_lands_from(
                            start,
                            4,
                            reading,
                            submission,
                            exists,
                            balance,
                            reference,
                            signature,
                        );
                    },
                }
            }
        },
        _ => {},
    }
}

/// A wallet whose every chain call fails does not hang: whatever its job,
/// its worker has reported after four answers, and what it reports is a
/// skip or an abandonment, never a landing.
pub proof fn lemma_failing_wallet_ends(job: Job, policy: RetryPolicy)
    ensures
        ({
            let end = step_failing(
                step_failing(step_failing(step_failing(Worker::spec_begin(job, policy)))),
            );
            &&& end.0.outcome() is Some
            &&& !(end.0.outcome() matches Some(SubmissionOutcome::Landed(_)))
            &&& end.1 == (Directive::Finish {
                outcome: end.0.outcome()->Some_0,
                balance: end.0.reading,
            })
        }),
{
}

/// Closing is idempotent. On a chain that answers, the first pass over a
/// token account lands if the account exists and is empty, and is a skip
/// otherwise. A landed closing removes the account, so that a second pass
/// is a skip in every case. Neither pass is abandoned.
pub proof fn lemma_close_is_idempotent(
    account: Address,
    owner: Address,
    payer: Address,
    policy: RetryPolicy,
    ledger: Map<Address, u64>,
    first_reference: ReferenceHash,
    first_signature: Signature,
    second_reference: ReferenceHash,
    second_signature: Signature,
)
    ensures
        ({
            let job = Job::Close { account, owner, payer };
            let first = close_pass(
                job,
                policy,
                observed(ledger, account),
                first_reference,
                first_signature,
            ).outcome();
            let left = if first matches Some(SubmissionOutcome::Landed(_)) {
                ledger.remove(account)
            } else {
                ledger
            };
            let second = close_pass(
                job,
                policy,
                observed(left, account),
                second_reference,
                second_signature,
            ).outcome();
            &&& first == (if observed(ledger, account) == Some(0u64) {
                Some(SubmissionOutcome::Landed(first_signature))
            } else if observed(ledger, account) is Some {
                Some(SubmissionOutcome::Skipped(SkipReason::NonZeroBalance))
            } else {
                Some(SubmissionOutcome::Skipped(SkipReason::AccountUnavailable))
            })
            &&& second matches Some(SubmissionOutcome::Skipped(_))
        }),
{
}

} // verus!
