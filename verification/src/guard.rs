//! The account state guard: the questions asked about a token account
//! before an operation is attempted on it.
//!
//! Closing asks whether the account exists and is empty. Transfers ask
//! whether the recipient's token account exists, and have it created where
//! it does not.

use vstd::prelude::*;
use crate::chain::associated_token_address;
use crate::chain::derive_token_account;
use crate::chain::InstructionPlan;
use crate::retry::RetryDirective;
use crate::retry::BACKOFF_MILLIS;
use crate::retry::RetryEvent;
use crate::retry::RetryPolicy;
use crate::retry::RetryPhase;
use crate::retry::RetrySubmitter;
use crate::retry::Submission;
use crate::types::Address;
use crate::types::ReferenceHash;
use crate::types::SkipReason;

verus! {

/// Whether a token account may be closed, given what the query for its
/// balance returned: `None` where the account does not exist or the query
/// failed.
///
/// Only an existing account with a balance of exactly zero is closed. Every
/// other state is a reason to skip, never a failure.
pub open spec fn close_verdict(balance: Option<u64>) -> Result<(), SkipReason> {
    match balance {
        Some(held) => if held == 0 {
            Ok(())
        } else {
            Err(SkipReason::NonZeroBalance)
        },
        None => Err(SkipReason::AccountUnavailable),
    }
}

/// Decides whether a token account may be closed.
pub fn check_closable(balance: Option<u64>) -> (verdict: Result<(), SkipReason>)
    ensures
        verdict == close_verdict(balance),
        verdict is Ok <==> balance == Some(0u64),
{
    match balance {
        Some(held) => if held == 0 {
            Ok(())
        } else {
            Err(SkipReason::NonZeroBalance)
        },
        None => Err(SkipReason::AccountUnavailable),
    }
}

/// Where the provisioning of a token account stands.
#[derive(Clone, Copy, Debug, PartialEq, Eq)]
pub enum GuardPhase {
    /// The chain was asked whether the account exists.
    Checking,
    /// The account was reported absent; its creation is being submitted.
    Creating(RetrySubmitter),
    /// An attempt to create the account failed; the chain was asked
    /// whether the account exists by now.
    Rechecking(RetrySubmitter),
    /// The address has been handed out.
    Ready,
}

/// What the chain client reports back to the guard.
#[derive(Clone, Copy, Debug, PartialEq, Eq)]
pub enum GuardEvent {
    /// Whether the account exists. A failed query counts as absent.
    Exists(bool),
    /// An answer to a directive of the creation's submission.
    Retry(RetryEvent),
}

/// What the guard asks of the chain client next.
#[derive(Clone, Copy, Debug, PartialEq, Eq)]
pub enum GuardDirective {
    CheckAccountExists(Address),
    FetchReference,
    SignAndSubmit { plan: InstructionPlan, signer: Address, payer: Address, reference: ReferenceHash },
    Backoff { millis: u64 },
    /// The token account's address; nothing more is asked.
    Ready(Address),
}

/// The provisioning of the token account that `owner` holds for `mint`.
#[derive(Clone, Copy, Debug, PartialEq, Eq)]
pub struct Provisioner {
    pub payer: Address,
    pub owner: Address,
    pub mint: Address,
    /// The derived address of the token account.
    pub account: Address,
    pub policy: RetryPolicy,
    pub phase: GuardPhase,
}

impl Provisioner {
    /// The guard before the existence check, and the check it asks for.
    pub open spec fn spec_begin(payer: Address, owner: Address, mint: Address, policy: RetryPolicy)
        -> (Provisioner, GuardDirective) {
        let account = associated_token_address(owner, mint);
        (
            Provisioner { payer, owner, mint, account, policy, phase: GuardPhase::Checking },
            GuardDirective::CheckAccountExists(account),
        )
    }

    /// The creation of the account, paid for and signed by the payer.
    pub open spec fn creation(self) -> Submission {
        Submission {
            plan: InstructionPlan::CreateTokenAccount {
                payer: self.payer,
                owner: self.owner,
                mint: self.mint,
            },
            signer: self.payer,
            payer: self.payer,
        }
    }

    /// The guard in another phase.
    pub open spec fn at(self, phase: GuardPhase) -> Provisioner {
        Provisioner { phase, ..self }
    }

    /// The guard with the address handed out.
    pub open spec fn ready(self) -> (Provisioner, GuardDirective) {
        (self.at(GuardPhase::Ready), GuardDirective::Ready(self.account))
    }

    /// Whether `event` answers the directive that is pending.
    pub open spec fn expects(self, event: GuardEvent) -> bool {
        match self.phase {
            GuardPhase::Checking => event is Exists,
            GuardPhase::Rechecking(_) => event is Exists,
            GuardPhase::Creating(submitter) => event matches GuardEvent::Retry(answer)
                && submitter.expects(answer),
            GuardPhase::Ready => false,
        }
    }

    /// The transition: the state after `event`, and what to do next.
    ///
    /// An account that exists is handed out at once. For an absent one the
    /// creation is submitted under the policy. After every failed attempt
    /// the guard asks again whether the account exists: if someone else
    /// created it in the meantime, the rejection was harmless and the
    /// address is handed out; if not, the pause and the next attempt
    /// follow. The address is also handed out when the submission ends,
    /// however it ends. An event that does not answer the pending directive
    /// ends the provisioning in the same way.
    pub open spec fn spec_step(self, event: GuardEvent) -> (Provisioner, GuardDirective) {
        match self.phase {
            GuardPhase::Ready => self.ready(),
            GuardPhase::Checking => match event {
                GuardEvent::Exists(false) => (
                    self.at(
                        GuardPhase::Creating(
                            RetrySubmitter::spec_begin(self.creation(), self.policy).0,
                        ),
                    ),
                    GuardDirective::FetchReference,
                ),
                _ => self.ready(),
            },
            GuardPhase::Creating(submitter) => match event {
                GuardEvent::Retry(answer) => {
                    let next = submitter.spec_step(answer);
                    match next.1 {
                        RetryDirective::FetchReference => (
                            self.at(GuardPhase::Creating(next.0)),
                            GuardDirective::FetchReference,
                        ),
                        RetryDirective::SignAndSubmit { plan, signer, payer, reference } => (
                            self.at(GuardPhase::Creating(next.0)),
                            GuardDirective::SignAndSubmit { plan, signer, payer, reference },
                        ),
                        RetryDirective::Backoff { .. } => (
                            self.at(GuardPhase::Rechecking(next.0)),
                            GuardDirective::CheckAccountExists(self.account),
                        ),
                        RetryDirective::Done(_) => self.ready(),
                    }
                },
                _ => self.ready(),
            },
            GuardPhase::Rechecking(submitter) => match event {
                GuardEvent::Exists(false) => (
                    self.at(GuardPhase::Creating(submitter)),
                    GuardDirective::Backoff { millis: BACKOFF_MILLIS },
                ),
                _ => self.ready(),
            },
        }
    }

    /// Starts the provisioning of the token account of `owner` for `mint`,
    /// with `payer` funding a creation.
    pub fn begin(payer: Address, owner: Address, mint: Address, policy: RetryPolicy) -> (started: (
        Provisioner,
        GuardDirective,
    ))
        ensures
            started == Provisioner::spec_begin(payer, owner, mint, policy),
    {
        let account = derive_token_account(&owner, &mint);
        (
            Provisioner { payer, owner, mint, account, policy, phase: GuardPhase::Checking },
            GuardDirective::CheckAccountExists(account),
        )
    }

    /// Takes what the chain client reports and says what to do next.
    pub fn step(self, event: GuardEvent) -> (next: (Provisioner, GuardDirective))
        ensures
            next == self.spec_step(event),
    {
        match self.phase {
            GuardPhase::Ready => self.hand_out(),
            GuardPhase::Checking => match event {
                GuardEvent::Exists(false) => {
                    let creation = Submission {
                        plan: InstructionPlan::CreateTokenAccount {
                            payer: self.payer,
                            owner: self.owner,
                            mint: self.mint,
                        },
                        signer: self.payer,
                        payer: self.payer,
                    };
                    let started = RetrySubmitter::begin(creation, self.policy);
                    (self.moved(GuardPhase::Creating(started.0)), GuardDirective::FetchReference)
                },
                _ => self.hand_out(),
            },
            GuardPhase::Creating(submitter) => match event {
                GuardEvent::Retry(answer) => {
                    let next = submitter.step(answer);
                    match next.1 {
                        RetryDirective::FetchReference => (
                            self.moved(GuardPhase::Creating(next.0)),
                            GuardDirective::FetchReference,
                        ),
                        RetryDirective::SignAndSubmit { plan, signer, payer, reference } => (
                            self.moved(GuardPhase::Creating(next.0)),
                            GuardDirective::SignAndSubmit { plan, signer, payer, reference },
                        ),
                        RetryDirective::Backoff { .. } => (
                            self.moved(GuardPhase::Rechecking(next.0)),
                            GuardDirective::CheckAccountExists(self.account),
                        ),
                        RetryDirective::Done(_) => self.hand_out(),
                    }
                },
                _ => self.hand_out(),
            },
            GuardPhase::Rechecking(submitter) => match event {
                GuardEvent::Exists(false) => (
                    self.moved(GuardPhase::Creating(submitter)),
                    GuardDirective::Backoff { millis: BACKOFF_MILLIS },
                ),
                _ => self.hand_out(),
            },
        }
    }

    /// Whether `event` answers the directive that is pending.
    pub fn answers(&self, event: &GuardEvent) -> (expected: bool)
        ensures
            expected == self.expects(*event),
    {
        match self.phase {
            GuardPhase::Checking => match event {
                GuardEvent::Exists(_) => true,
                _ => false,
            },
            GuardPhase::Rechecking(_) => match event {
                GuardEvent::Exists(_) => true,
                _ => false,
            },
            GuardPhase::Creating(submitter) => match event {
                GuardEvent::Retry(answer) => submitter.answers(answer),
                _ => false,
            },
            GuardPhase::Ready => false,
        }
    }

    fn moved(self, phase: GuardPhase) -> (next: Provisioner)
        ensures
            next == self.at(phase),
    {
        Provisioner {
            payer: self.payer,
            owner: self.owner,
            mint: self.mint,
            account: self.account,
            policy: self.policy,
            phase,
        }
    }

    fn hand_out(self) -> (next: (Provisioner, GuardDirective))
        ensures
            next == self.ready(),
    {
        (self.moved(GuardPhase::Ready), GuardDirective::Ready(self.account))
    }
}

/// Whatever the chain answers, the guard hands out no other address than
/// the derived one, and it never keeps a different one in its state.
pub proof fn lemma_guard_keeps_the_derived_address(guard: Provisioner, event: GuardEvent)
    ensures
        guard.spec_step(event).0.account == guard.account,
        guard.spec_step(event).1 matches GuardDirective::Ready(account) ==> account
            == guard.account,
{
}

/// A creation that loses the race is tolerated. When an attempt to create
/// the account is rejected, the guard asks whether the account exists, and
/// if it does by then, it hands out the derived address. Where the policy
/// allows no further attempt it hands out the address at once. In neither
/// case is anything abandoned.
pub proof fn lemma_lost_race_is_tolerated(guard: Provisioner, submitter: RetrySubmitter)
    requires
        guard.phase == GuardPhase::Creating(submitter),
        submitter.phase == RetryPhase::AwaitingConfirmation,
    ensures
        ({
            let rejected = guard.spec_step(GuardEvent::Retry(RetryEvent::Confirmation(None)));
            if submitter.policy.exhausted(submitter.attempts) {
                rejected.1 == GuardDirective::Ready(guard.account)
            } else {
                &&& rejected.1 == GuardDirective::CheckAccountExists(guard.account)
                &&& rejected.0.spec_step(GuardEvent::Exists(true)).1 == GuardDirective::Ready(
                    guard.account,
                )
                &&& rejected.0.spec_step(GuardEvent::Exists(false)).1 == (GuardDirective::Backoff {
                    millis: BACKOFF_MILLIS,
                })
            }
        }),
{
}

/// The end of the creation's submission, landed or given up, ends the
/// provisioning with the derived address.
pub proof fn lemma_creation_end_hands_out_address(guard: Provisioner, answer: RetryEvent)
    requires
        guard.phase matches GuardPhase::Creating(submitter) && submitter.spec_step(answer).1
            is Done,
    ensures
        guard.spec_step(GuardEvent::Retry(answer)).1 == GuardDirective::Ready(guard.account),
{
}

} // verus!
