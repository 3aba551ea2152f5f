//! The retrying submitter: one instruction is signed against a fresh
//! reference and submitted, again and again with a fixed pause in between,
//! until it lands or the policy gives it up.

use vstd::prelude::*;
use crate::chain::InstructionPlan;
use crate::types::AbandonReason;
use crate::types::Address;
use crate::types::ReferenceHash;
use crate::types::Signature;

verus! {

/// The pause between a failed attempt and the next one, in milliseconds.
pub const BACKOFF_MILLIS: u64 = 1000;

/// How long submission is retried.
#[derive(Clone, Copy, Debug, PartialEq, Eq)]
pub struct RetryPolicy {
    /// `None` retries until the transaction lands. `Some(n)` gives up after
    /// `n` failed attempts; at least one attempt is always made.
    pub max_attempts: Option<u64>,
}

/// What is to be submitted: one instruction, who signs it and who pays.
#[derive(Clone, Copy, Debug, PartialEq, Eq)]
pub struct Submission {
    pub plan: InstructionPlan,
    pub signer: Address,
    pub payer: Address,
}

/// Where the submitter stands.
#[derive(Clone, Copy, Debug, PartialEq, Eq)]
pub enum RetryPhase {
    /// A fresh reference was asked for.
    AwaitingReference,
    /// A signed transaction is with the chain.
    AwaitingConfirmation,
    /// The pause after a failed attempt is running.
    BackingOff,
    Landed(Signature),
    Abandoned(AbandonReason),
}

/// What the chain client reports back to the submitter.
#[derive(Clone, Copy, Debug, PartialEq, Eq)]
pub enum RetryEvent {
    /// The fresh reference, or `None` if it could not be fetched.
    Reference(Option<ReferenceHash>),
    /// The signature of the confirmed transaction, or `None` if the attempt
    /// failed: network error, confirmation timeout or rejection.
    Confirmation(Option<Signature>),
    /// The pause is over.
    Elapsed,
}

/// What the submitter asks of the chain client next.
#[derive(Clone, Copy, Debug, PartialEq, Eq)]
pub enum RetryDirective {
    FetchReference,
    SignAndSubmit { plan: InstructionPlan, signer: Address, payer: Address, reference: ReferenceHash },
    Backoff { millis: u64 },
    Done(Result<Signature, AbandonReason>),
}

/// The state of one retried submission.
#[derive(Clone, Copy, Debug, PartialEq, Eq)]
pub struct RetrySubmitter {
    pub submission: Submission,
    pub policy: RetryPolicy,
    pub phase: RetryPhase,
    /// Transactions handed to the chain so far.
    pub attempts: u64,
    /// Pauses asked for so far.
    pub backoffs: u64,
}

/// `count + 1`, or `count` where that would not fit.
pub open spec fn bump(count: u64) -> u64 {
    if count < u64::MAX {
        (count + 1) as u64
    } else {
        count
    }
}

impl RetryPolicy {
    /// Retry until the transaction lands.
    pub fn unbounded() -> (policy: RetryPolicy)
        ensures
            policy == (RetryPolicy { max_attempts: None }),
    {
        RetryPolicy { max_attempts: None }
    }

    /// Give up after `max_attempts` failed attempts.
    pub fn limited(max_attempts: u64) -> (policy: RetryPolicy)
        ensures
            policy == (RetryPolicy { max_attempts: Some(max_attempts) }),
    {
        RetryPolicy { max_attempts: Some(max_attempts) }
    }

    /// Whether no further attempt is made once `attempts` have failed.
    pub open spec fn exhausted(self, attempts: u64) -> bool {
        match self.max_attempts {
            Some(limit) => attempts >= limit,
            None => false,
        }
    }
}

impl RetrySubmitter {
    /// The submitter before its first attempt, and its first directive.
    pub open spec fn spec_begin(submission: Submission, policy: RetryPolicy) -> (
        RetrySubmitter,
        RetryDirective,
    ) {
        (
            RetrySubmitter {
                submission,
                policy,
                phase: RetryPhase::AwaitingReference,
                attempts: 0,
                backoffs: 0,
            },
            RetryDirective::FetchReference,
        )
    }

    /// The submitter with its phase replaced.
    pub open spec fn with_phase(self, phase: RetryPhase) -> RetrySubmitter {
        RetrySubmitter { phase, ..self }
    }

    /// The submitter given up for `reason`.
    pub open spec fn give_up(self, reason: AbandonReason) -> (RetrySubmitter, RetryDirective) {
        (self.with_phase(RetryPhase::Abandoned(reason)), RetryDirective::Done(Err(reason)))
    }

    /// The transition: the state after `event`, and what to do next.
    ///
    /// A fetched reference starts an attempt; a reference that cannot be
    /// fetched ends the submission. A confirmed attempt ends it with the
    /// signature, and that is the only way to success. A failed attempt is
    /// followed by the pause and a new reference, unless the policy is
    /// exhausted. An event that does not answer the pending directive ends
    /// the submission as an internal failure. A finished submitter stays as
    /// it is.
    pub open spec fn spec_step(self, event: RetryEvent) -> (RetrySubmitter, RetryDirective) {
        match self.phase {
            RetryPhase::Landed(signature) => (self, RetryDirective::Done(Ok(signature))),
            RetryPhase::Abandoned(reason) => (self, RetryDirective::Done(Err(reason))),
            RetryPhase::AwaitingReference => match event {
                RetryEvent::Reference(Some(reference)) => (
                    RetrySubmitter {
                        phase: RetryPhase::AwaitingConfirmation,
                        attempts: bump(self.attempts),
                        ..self
                    },
                    RetryDirective::SignAndSubmit {
                        plan: self.submission.plan,
                        signer: self.submission.signer,
                        payer: self.submission.payer,
                        reference,
                    },
                ),
                RetryEvent::Reference(None) => self.give_up(AbandonReason::ReferenceUnavailable),
                _ => self.give_up(AbandonReason::InternalFailure),
            },
            RetryPhase::AwaitingConfirmation => match event {
                RetryEvent::Confirmation(Some(signature)) => (
                    self.with_phase(RetryPhase::Landed(signature)),
                    RetryDirective::Done(Ok(signature)),
                ),
                RetryEvent::Confirmation(None) => if self.policy.exhausted(self.attempts) {
                    self.give_up(AbandonReason::Timeout)
                } else {
                    (
                        RetrySubmitter {
                            phase: RetryPhase::BackingOff,
                            backoffs: bump(self.backoffs),
                            ..self
                        },
                        RetryDirective::Backoff { millis: BACKOFF_MILLIS },
                    )
                },
                _ => self.give_up(AbandonReason::InternalFailure),
            },
            RetryPhase::BackingOff => match event {
                RetryEvent::Elapsed => (
                    self.with_phase(RetryPhase::AwaitingReference),
                    RetryDirective::FetchReference,
                ),
                _ => self.give_up(AbandonReason::InternalFailure),
            },
        }
    }

    /// Whether `event` answers the directive that is pending.
    pub open spec fn expects(self, event: RetryEvent) -> bool {
        match self.phase {
            RetryPhase::AwaitingReference => event is Reference,
            RetryPhase::AwaitingConfirmation => event is Confirmation,
            RetryPhase::BackingOff => event is Elapsed,
            _ => false,
        }
    }

    /// The state after a failed attempt against each of `references` in
    /// turn, each followed by its pause.
    pub open spec fn after_failures(self, references: Seq<ReferenceHash>) -> RetrySubmitter
        decreases references.len(),
    {
        if references.len() == 0 {
            self
        } else {
            let before = self.after_failures(references.drop_last());
            before.spec_step(RetryEvent::Reference(Some(references.last()))).0.spec_step(
                RetryEvent::Confirmation(None),
            ).0.spec_step(RetryEvent::Elapsed).0
        }
    }

    /// The total of the pauses asked for so far, in milliseconds.
    pub open spec fn waited_millis(self) -> nat {
        (self.backoffs * BACKOFF_MILLIS) as nat
    }

    /// Starts the submission of one instruction.
    pub fn begin(submission: Submission, policy: RetryPolicy) -> (started: (
        RetrySubmitter,
        RetryDirective,
    ))
        ensures
            started == RetrySubmitter::spec_begin(submission, policy),
    {
        (
            RetrySubmitter {
                submission,
                policy,
                phase: RetryPhase::AwaitingReference,
                attempts: 0,
                backoffs: 0,
            },
            RetryDirective::FetchReference,
        )
    }

    /// Takes what the chain client reports and says what to do next.
    pub fn step(self, event: RetryEvent) -> (next: (RetrySubmitter, RetryDirective))
        ensures
            next == self.spec_step(event),
    {
        match self.phase {
            RetryPhase::Landed(signature) => (self, RetryDirective::Done(Ok(signature))),
            RetryPhase::Abandoned(reason) => (self, RetryDirective::Done(Err(reason))),
            RetryPhase::AwaitingReference => match event {
                RetryEvent::Reference(Some(reference)) => {
                    let attempts: u64 = if self.attempts < u64::MAX {
                        self.attempts + 1
                    } else {
                        self.attempts
                    };
                    (
                        RetrySubmitter {
                            submission: self.submission,
                            policy: self.policy,
                            phase: RetryPhase::AwaitingConfirmation,
                            attempts,
                            backoffs: self.backoffs,
                        },
                        RetryDirective::SignAndSubmit {
                            plan: self.submission.plan,
                            signer: self.submission.signer,
                            payer: self.submission.payer,
                            reference,
                        },
                    )
                },
                RetryEvent::Reference(None) => self.abandon(AbandonReason::ReferenceUnavailable),
                _ => self.abandon(AbandonReason::InternalFailure),
            },
            RetryPhase::AwaitingConfirmation => match event {
                RetryEvent::Confirmation(Some(signature)) => (
                    RetrySubmitter {
                        submission: self.submission,
                        policy: self.policy,
                        phase: RetryPhase::Landed(signature),
                        attempts: self.attempts,
                        backoffs: self.backoffs,
                    },
                    RetryDirective::Done(Ok(signature)),
                ),
                RetryEvent::Confirmation(None) => {
                    let exhausted = match self.policy.max_attempts {
                        Some(limit) => self.attempts >= limit,
                        None => false,
                    };
                    if exhausted {
                        self.abandon(AbandonReason::Timeout)
                    } else {
                        let backoffs: u64 = if self.backoffs < u64::MAX {
                            self.backoffs + 1
                        } else {
                            self.backoffs
                        };
                        (
                            RetrySubmitter {
                                submission: self.submission,
                                policy: self.policy,
                                phase: RetryPhase::BackingOff,
                                attempts: self.attempts,
                                backoffs,
                            },
                            RetryDirective::Backoff { millis: BACKOFF_MILLIS },
                        )
                    }
                },
                _ => self.abandon(AbandonReason::InternalFailure),
            },
            RetryPhase::BackingOff => match event {
                RetryEvent::Elapsed => (
                    RetrySubmitter {
                        submission: self.submission,
                        policy: self.policy,
                        phase: RetryPhase::AwaitingReference,
                        attempts: self.attempts,
                        backoffs: self.backoffs,
                    },
                    RetryDirective::FetchReference,
                ),
                _ => self.abandon(AbandonReason::InternalFailure),
            },
        }
    }

    /// Whether `event` answers the directive that is pending.
    pub fn answers(&self, event: &RetryEvent) -> (expected: bool)
        ensures
            expected == self.expects(*event),
    {
        match self.phase {
            RetryPhase::AwaitingReference => match event {
                RetryEvent::Reference(_) => true,
                _ => false,
            },
            RetryPhase::AwaitingConfirmation => match event {
                RetryEvent::Confirmation(_) => true,
                _ => false,
            },
            RetryPhase::BackingOff => match event {
                RetryEvent::Elapsed => true,
                _ => false,
            },
            _ => false,
        }
    }

    fn abandon(self, reason: AbandonReason) -> (next: (RetrySubmitter, RetryDirective))
        ensures
            next == self.give_up(reason),
    {
        (
            RetrySubmitter {
                submission: self.submission,
                policy: self.policy,
                phase: RetryPhase::Abandoned(reason),
                attempts: self.attempts,
                backoffs: self.backoffs,
            },
            RetryDirective::Done(Err(reason)),
        )
    }
}

/// A submission that fails `references.len()` times and is then confirmed
/// returns the signature of the confirmed attempt after exactly one attempt
/// more than it failed, having paused once, for the fixed interval, after
/// every failure.
pub proof fn lemma_lands_after_failures(
    submission: Submission,
    references: Seq<ReferenceHash>,
    last: ReferenceHash,
    signature: Signature,
)
    requires
        references.len() < u64::MAX,
    ensures
        ({
            let policy = RetryPolicy { max_attempts: None };
            let failed = RetrySubmitter::spec_begin(submission, policy).0.after_failures(references);
            let attempt = failed.spec_step(RetryEvent::Reference(Some(last)));
            let landed = attempt.0.spec_step(RetryEvent::Confirmation(Some(signature)));
            &&& failed.phase == RetryPhase::AwaitingReference
            &&& failed.attempts == references.len()
            &&& attempt.1 == (RetryDirective::SignAndSubmit {
                plan: submission.plan,
                signer: submission.signer,
                payer: submission.payer,
                reference: last,
            })
            &&& landed.1 == RetryDirective::Done(Ok(signature))
            &&& landed.0.phase == RetryPhase::Landed(signature)
            &&& landed.0.attempts == references.len() + 1
            &&& landed.0.backoffs == references.len()
            &&& landed.0.waited_millis() == references.len() * BACKOFF_MILLIS
        }),
{
    let policy = RetryPolicy { max_attempts: None };
    let started = RetrySubmitter::spec_begin(submission, policy).0;
    lemma_failures_are_retried(started, references);
}

/// Under a policy without a limit every failed attempt is retried: after any
/// number of failures the submitter is asking for a fresh reference again,
/// with one attempt and one pause counted for each failure.
pub proof fn lemma_failures_are_retried(start: RetrySubmitter, references: Seq<ReferenceHash>)
    requires
        start.phase == RetryPhase::AwaitingReference,
        start.policy.max_attempts is None,
        start.attempts + references.len() <= u64::MAX,
        start.backoffs + references.len() <= u64::MAX,
    ensures
        start.after_failures(references) == (RetrySubmitter {
            attempts: (start.attempts + references.len()) as u64,
            backoffs: (start.backoffs + references.len()) as u64,
            ..start
        }),
    decreases references.len(),
{
    if references.len() > 0 {
        lemma_failures_are_retried(start, references.drop_last());
    }
}

} // verus!
