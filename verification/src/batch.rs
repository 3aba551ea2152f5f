//! The orchestrator: one batch run over a sequence of wallets.
//!
//! Every entry of the wallet source gets one slot. A slot is pending until
//! a permit is free, active while its worker holds the permit, and
//! finished once the worker has reported its one outcome. At most
//! [`MAX_IN_FLIGHT`] slots are active at any time. The summary counts the
//! finished slots by outcome and adds up the balances they read.

use vstd::prelude::*;
use crate::aggregator::Aggregator;
use crate::retry::RetryPolicy;
use crate::types::Address;
use crate::types::Asset;
use crate::types::Operation;
use crate::types::SkipReason;
use crate::types::SubmissionOutcome;
use crate::types::WorkItem;
use crate::worker::Directive;
use crate::worker::Event;
use crate::worker::Job;
use crate::worker::Worker;

verus! {

/// The number of permits: how many work items may be in flight at once.
pub const MAX_IN_FLIGHT: usize = 20;

/// One entry of the wallet source.
#[derive(Clone, Copy, Debug, PartialEq, Eq)]
pub enum WalletEntry {
    Loaded(Address),
    /// The entry could not be read or parsed.
    Unreadable,
}

/// One entry of a batch: the job for a wallet, or the note that the wallet
/// could not be read.
#[derive(Clone, Copy, Debug, PartialEq, Eq)]
pub enum Entry {
    Ready(Job),
    Unreadable,
}

/// The state of one entry of the batch.
#[derive(Clone, Copy, Debug, PartialEq, Eq)]
pub enum Slot {
    /// Waiting for a permit.
    Pending(Job),
    /// In flight: the worker holds a permit.
    Active(Worker),
    /// Done, with the balance read if the job was to read one.
    Finished { outcome: SubmissionOutcome, balance: Option<u64> },
}

/// The classes that the slots of a batch fall into.
#[derive(Clone, Copy, Debug, PartialEq, Eq)]
pub enum Kind {
    Pending,
    Active,
    Landed,
    Skipped,
    Abandoned,
}

/// What a batch run returns.
#[derive(Clone, Copy, Debug, PartialEq, Eq)]
pub struct BatchSummary {
    pub landed: usize,
    pub skipped: usize,
    pub abandoned: usize,
    /// The sum of the balances read.
    pub total: u128,
}

/// What the batch asks of its driver next.
#[derive(Clone, Copy, Debug, PartialEq, Eq)]
pub enum Dispatch {
    /// A permit was granted to the entry `index`; carry out `directive`
    /// for it and deliver the answer.
    Start { index: usize, directive: Directive },
    /// Nothing can be started before an answer is delivered.
    Wait,
    /// Every entry has its outcome.
    Complete(BatchSummary),
}

/// One batch run.
pub struct Batch {
    slots: Vec<Slot>,
    policy: RetryPolicy,
    cursor: usize,
    in_flight: usize,
    landed: usize,
    skipped: usize,
    abandoned: usize,
    total: Aggregator,
}

/// The class of a slot.
pub open spec fn kind_of(slot: Slot) -> Kind {
    match slot {
        Slot::Pending(_) => Kind::Pending,
        Slot::Active(_) => Kind::Active,
        Slot::Finished { outcome, .. } => match outcome {
            SubmissionOutcome::Landed(_) => Kind::Landed,
            SubmissionOutcome::Skipped(_) => Kind::Skipped,
            SubmissionOutcome::Abandoned(_) => Kind::Abandoned,
        },
    }
}

/// How many of `slots` are of the class `kind`.
pub open spec fn count(slots: Seq<Slot>, kind: Kind) -> nat
    decreases slots.len(),
{
    if slots.len() == 0 {
        0
    } else {
        count(slots.drop_last(), kind) + if kind_of(slots.last()) == kind {
            1nat
        } else {
            0nat
        }
    }
}

/// The balance that a slot adds to the total.
pub open spec fn reading_of(slot: Slot) -> nat {
    match slot {
        Slot::Finished { balance: Some(held), .. } => held as nat,
        _ => 0,
    }
}

/// The sum of the balances read by the finished slots.
pub open spec fn readings(slots: Seq<Slot>) -> nat
    decreases slots.len(),
{
    if slots.len() == 0 {
        0
    } else {
        readings(slots.drop_last()) + reading_of(slots.last())
    }
}

/// The entry that a wallet becomes in a batch that applies `operation` to
/// `asset` on behalf of `main`.
pub open spec fn entry_for(wallet: WalletEntry, main: Address, operation: Operation, asset: Asset)
    -> Entry {
    match wallet {
        WalletEntry::Loaded(address) => Entry::Ready(
            (WorkItem { wallet: address, operation, asset }).spec_resolve(main),
        ),
        WalletEntry::Unreadable => Entry::Unreadable,
    }
}

/// The slot that an entry starts in. An unreadable wallet is skipped at
/// once and never asks for a permit.
pub open spec fn initial_slot(entry: Entry) -> Slot {
    match entry {
        Entry::Ready(job) => Slot::Pending(job),
        Entry::Unreadable => Slot::Finished {
            outcome: SubmissionOutcome::Skipped(SkipReason::UnreadableWallet),
            balance: None,
        },
    }
}

/// The slot that a worker's answer to an event leaves behind: finished
/// with the worker's outcome and reading if the worker is done, active
/// otherwise.
pub open spec fn slot_after(next: (Worker, Directive)) -> Slot {
    match next.1 {
        Directive::Finish { outcome, balance } => Slot::Finished { outcome, balance },
        _ => Slot::Active(next.0),
    }
}

/// Whether `summary` is the summary of `slots`.
pub open spec fn summarizes(summary: BatchSummary, slots: Seq<Slot>) -> bool {
    &&& summary.landed == count(slots, Kind::Landed)
    &&& summary.skipped == count(slots, Kind::Skipped)
    &&& summary.abandoned == count(slots, Kind::Abandoned)
    &&& summary.total == readings(slots)
}

impl Batch {
    /// The slots of the batch, one for each entry, in the order of the
    /// wallet source.
    pub closed spec fn slots(&self) -> Seq<Slot> {
        self.slots@
    }

    /// The retry policy that every submission of the batch runs under.
    pub closed spec fn policy(&self) -> RetryPolicy {
        self.policy
    }

    /// The batch's bookkeeping agrees with its slots: the permits in use
    /// are the active slots and never more than [`MAX_IN_FLIGHT`], the
    /// counters are the counts of the finished slots, the total is the sum
    /// of their readings, and no active worker has reported yet.
    pub closed spec fn wf(&self) -> bool {
        &&& self.cursor <= self.slots@.len()
        &&& forall|i: int| 0 <= i < self.cursor ==> kind_of(#[trigger] self.slots@[i]) != Kind::Pending
        &&& self.in_flight == count(self.slots@, Kind::Active)
        &&& self.in_flight <= MAX_IN_FLIGHT
        &&& self.landed == count(self.slots@, Kind::Landed)
        &&& self.skipped == count(self.slots@, Kind::Skipped)
        &&& self.abandoned == count(self.slots@, Kind::Abandoned)
        &&& self.total.total == readings(self.slots@)
        &&& forall|i: int|
            0 <= i < self.slots@.len() ==> (#[trigger] self.slots@[i] matches Slot::Active(worker)
                ==> worker.outcome() is None)
    }

    /// A batch over `entries`. Unreadable entries are skipped at once;
    /// every other entry waits for a permit.
    pub fn from_entries(entries: &Vec<Entry>, policy: RetryPolicy) -> (batch: Batch)
        ensures
            batch.wf(),
            batch.policy() == policy,
            batch.slots().len() == entries@.len(),
            forall|i: int|
                0 <= i < entries@.len() ==> #[trigger] batch.slots()[i] == initial_slot(entries@[i]),
    {
        let mut slots: Vec<Slot> = Vec::new();
        let mut skipped: usize = 0;
        let mut at: usize = 0;
        while at < entries.len()
            invariant
                at <= entries@.len(),
                slots@.len() == at,
                forall|i: int| 0 <= i < at ==> #[trigger] slots@[i] == initial_slot(entries@[i]),
                skipped == count(slots@, Kind::Skipped),
                skipped <= at,
                count(slots@, Kind::Active) == 0,
                count(slots@, Kind::Landed) == 0,
                count(slots@, Kind::Abandoned) == 0,
                readings(slots@) == 0,
            decreases entries@.len() - at,
        {
            let slot = match entries[at] {
                Entry::Ready(job) => Slot::Pending(job),
                Entry::Unreadable => {
                    skipped = skipped + 1;
                    Slot::Finished {
                        outcome: SubmissionOutcome::Skipped(SkipReason::UnreadableWallet),
                        balance: None,
                    }
                },
            };
            proof {
                assert(slots@.push(slot).drop_last() =~= slots@);
            }
            slots.push(slot);
            at = at + 1;
        }
        proof {
            lemma_count_none(slots@, Kind::Active);
        }
        Batch {
            slots,
            policy,
            cursor: 0,
            in_flight: 0,
            landed: 0,
            skipped,
            abandoned: 0,
            total: Aggregator::new(),
        }
    }

    /// A batch that applies `operation` to `asset` for every wallet of
    /// `wallets`, on behalf of `main`.
    pub fn new(
        wallets: &Vec<WalletEntry>,
        main: Address,
        operation: Operation,
        asset: Asset,
        policy: RetryPolicy,
    ) -> (batch: Batch)
        ensures
            batch.wf(),
            batch.policy() == policy,
            batch.slots().len() == wallets@.len(),
            forall|i: int|
                0 <= i < wallets@.len() ==> #[trigger] batch.slots()[i] == initial_slot(
                    entry_for(wallets@[i], main, operation, asset),
                ),
    {
        let mut entries: Vec<Entry> = Vec::new();
        let mut at: usize = 0;
        while at < wallets.len()
            invariant
                at <= wallets@.len(),
                entries@.len() == at,
                forall|i: int|
                    0 <= i < at ==> #[trigger] entries@[i] == entry_for(
                        wallets@[i],
                        main,
                        operation,
                        asset,
                    ),
            decreases wallets@.len() - at,
        {
            let entry = match wallets[at] {
                WalletEntry::Loaded(address) => {
                    let item = WorkItem { wallet: address, operation, asset };
                    Entry::Ready(item.resolve(&main))
                },
                WalletEntry::Unreadable => Entry::Unreadable,
            };
            entries.push(entry);
            at = at + 1;
        }
        Batch::from_entries(&entries, policy)
    }

    /// The number of entries.
    pub fn len(&self) -> (len: usize)
        ensures
            len == self.slots().len(),
    {
        self.slots.len()
    }

    /// The number of permits in use.
    pub fn in_flight(&self) -> (in_flight: usize)
        requires
            self.wf(),
        ensures
            in_flight == count(self.slots(), Kind::Active),
            in_flight <= MAX_IN_FLIGHT,
    {
        self.in_flight
    }

    /// The summary of the entries finished so far.
    pub fn summary(&self) -> (summary: BatchSummary)
        requires
            self.wf(),
        ensures
            summarizes(summary, self.slots()),
    {
        BatchSummary {
            landed: self.landed,
            skipped: self.skipped,
            abandoned: self.abandoned,
            total: self.total.total(),
        }
    }

    /// The outcome of the entry `index`, once it has one.
    pub fn outcome(&self, index: usize) -> (outcome: Option<SubmissionOutcome>)
        ensures
            outcome == (if index < self.slots().len() {
                match self.slots()[index as int] {
                    Slot::Finished { outcome, .. } => Some(outcome),
                    _ => None,
                }
            } else {
                None
            }),
    {
        if index < self.slots.len() {
            match self.slots[index] {
                Slot::Finished { outcome, .. } => Some(outcome),
                _ => None,
            }
        } else {
            None
        }
    }

    /// Grants the next permit, if there is one to grant and an entry to
    /// grant it to.
    ///
    /// Entries are started in the order of the wallet source. An entry is
    /// started only while fewer than [`MAX_IN_FLIGHT`] are in flight. The
    /// batch is complete when no entry is pending or in flight, and its
    /// summary then accounts for every entry.
    pub fn dispatch(&mut self) -> (decision: Dispatch)
        requires
            old(self).wf(),
        ensures
            final(self).wf(),
            final(self).policy() == old(self).policy(),
            match decision {
                Dispatch::Start { index, directive } => {
                    &&& index < old(self).slots().len()
                    &&& forall|i: int|
                        0 <= i < index ==> kind_of(#[trigger] old(self).slots()[i]) != Kind::Pending
                    &&& count(old(self).slots(), Kind::Active) < MAX_IN_FLIGHT
                    &&& old(self).slots()[index as int] matches Slot::Pending(job)
                    &&& directive == Worker::spec_begin(job, old(self).policy()).1
                    &&& final(self).slots() == old(self).slots().update(
                        index as int,
                        Slot::Active(Worker::spec_begin(job, old(self).policy()).0),
                    )
                },
                Dispatch::Wait => {
                    &&& final(self).slots() == old(self).slots()
                    &&& count(old(self).slots(), Kind::Active) > 0
                    &&& count(old(self).slots(), Kind::Pending) == 0 || count(
                        old(self).slots(),
                        Kind::Active,
                    ) == MAX_IN_FLIGHT
                },
                Dispatch::Complete(summary) => {
                    &&& final(self).slots() == old(self).slots()
                    &&& count(old(self).slots(), Kind::Pending) == 0
                    &&& count(old(self).slots(), Kind::Active) == 0
                    &&& summarizes(summary, old(self).slots())
                    &&& summary.landed + summary.skipped + summary.abandoned == old(
                        self,
                    ).slots().len()
                },
            },
    {
        let len = self.slots.len();
        loop
            invariant
                self.wf(),
                self.slots@ == old(self).slots@,
                self.policy == old(self).policy,
                len == self.slots@.len(),
            ensures
                self.cursor >= len || kind_of(self.slots@[self.cursor as int]) == Kind::Pending,
            decreases len - self.cursor,
        {
            if self.cursor >= len {
                break ;
            }
            match self.slots[self.cursor] {
                Slot::Pending(_) => {
                    break ;
                },
                _ => {},
            }
            self.cursor = self.cursor + 1;
        }
        proof {
            lemma_counts_cover(self.slots@);
            lemma_count_none(self.slots@, Kind::Pending);
        }
        if self.cursor < len {
            if self.in_flight < MAX_IN_FLIGHT {
                let index = self.cursor;
                match self.slots[index] {
                    Slot::Pending(job) => {
                        let started = Worker::begin(job, self.policy);
                        proof {
                            lemma_count_update(
                                self.slots@,
                                index as int,
                                Slot::Active(started.0),
                                Kind::Active,
                            );
                            lemma_count_update(
                                self.slots@,
                                index as int,
                                Slot::Active(started.0),
                                Kind::Landed,
                            );
                            lemma_count_update(
                                self.slots@,
                                index as int,
                                Slot::Active(started.0),
                                Kind::Skipped,
                            );
                            lemma_count_update(
                                self.slots@,
                                index as int,
                                Slot::Active(started.0),
                                Kind::Abandoned,
                            );
                            lemma_readings_update(self.slots@, index as int, Slot::Active(started.0));
                        }
                        self.slots.set(index, Slot::Active(started.0));
                        self.in_flight = self.in_flight + 1;
                        self.cursor = index + 1;
                        Dispatch::Start { index, directive: started.1 }
                    },
                    _ => Dispatch::Wait,
                }
            } else {
                Dispatch::Wait
            }
        } else if self.in_flight > 0 {
            Dispatch::Wait
        } else {
            Dispatch::Complete(
                BatchSummary {
                    landed: self.landed,
                    skipped: self.skipped,
                    abandoned: self.abandoned,
                    total: self.total.total(),
                },
            )
        }
    }

    /// Hands the chain's answer for the entry `index` to its worker and
    /// returns the worker's next directive, or `None` if the entry is not
    /// in flight.
    ///
    /// Only the slot `index` changes. When the worker reports its outcome
    /// the slot is finished with it, the permit is released, and the
    /// worker's reading is added to the total.
    pub fn deliver(&mut self, index: usize, event: Event) -> (directive: Option<Directive>)
        requires
            old(self).wf(),
        ensures
            final(self).wf(),
            final(self).policy() == old(self).policy(),
            match directive {
                Some(directive) => {
                    &&& index < old(self).slots().len()
                    &&& old(self).slots()[index as int] matches Slot::Active(worker)
                    &&& directive == worker.spec_step(event).1
                    &&& final(self).slots() == old(self).slots().update(
                        index as int,
                        slot_after(worker.spec_step(event)),
                    )
                },
                None => {
                    &&& final(self).slots() == old(self).slots()
                    &&& index < old(self).slots().len() ==> kind_of(old(self).slots()[index as int])
                        != Kind::Active
                },
            },
    {
        if index >= self.slots.len() {
            return None;
        }
        match self.slots[index] {
            Slot::Active(worker) => {
                let next = worker.step(event);
                let slot = match next.1 {
                    Directive::Finish { outcome, balance } => Slot::Finished { outcome, balance },
                    _ => Slot::Active(next.0),
                };
                proof {
                    lemma_count_update(self.slots@, index as int, slot, Kind::Active);
                    lemma_count_update(self.slots@, index as int, slot, Kind::Landed);
                    lemma_count_update(self.slots@, index as int, slot, Kind::Skipped);
                    lemma_count_update(self.slots@, index as int, slot, Kind::Abandoned);
                    lemma_readings_update(self.slots@, index as int, slot);
                    lemma_counts_cover(self.slots@.update(index as int, slot));
                    lemma_readings_bound(self.slots@.update(index as int, slot));
                    assert(self.slots@.len() * u64::MAX <= u64::MAX * u64::MAX) by (nonlinear_arith)
                        requires
                            self.slots@.len() <= u64::MAX,
                    ;
                }
                match slot {
                    Slot::Finished { outcome, balance } => {
                        self.in_flight = self.in_flight - 1;
                        match outcome {
                            SubmissionOutcome::Landed(_) => {
                                self.landed = self.landed + 1;
                            },
                            SubmissionOutcome::Skipped(_) => {
                                self.skipped = self.skipped + 1;
                            },
                            SubmissionOutcome::Abandoned(_) => {
                                self.abandoned = self.abandoned + 1;
                            },
                        }
                        match balance {
                            Some(held) => {
                                self.total.add(held);
                            },
                            None => {},
                        }
                    },
                    _ => {},
                }
                self.slots.set(index, slot);
                Some(next.1)
            },
            _ => None,
        }
    }
}

/// At no time are more than [`MAX_IN_FLIGHT`] entries in flight.
pub proof fn lemma_in_flight_is_bounded(batch: Batch)
    requires
        batch.wf(),
    ensures
        count(batch.slots(), Kind::Active) <= MAX_IN_FLIGHT,
{
}

/// A batch in which nothing is pending or in flight accounts for every
/// entry: each entry has its one outcome, and landed, skipped and abandoned
/// add up to the number of entries, whatever that number is.
pub proof fn lemma_finished_batch_covers_every_entry(slots: Seq<Slot>)
    requires
        count(slots, Kind::Pending) == 0,
        count(slots, Kind::Active) == 0,
    ensures
        count(slots, Kind::Landed) + count(slots, Kind::Skipped) + count(slots, Kind::Abandoned)
            == slots.len(),
        forall|i: int| 0 <= i < slots.len() ==> #[trigger] slots[i] is Finished,
{
    lemma_counts_cover(slots);
    lemma_count_none(slots, Kind::Pending);
    lemma_count_none(slots, Kind::Active);
}

/// What is delivered for one entry touches no other: the slot of every
/// other entry, with its worker or its outcome, is what it was, whatever
/// the answer and whatever becomes of the entry it was for.
pub proof fn lemma_delivery_is_isolated(slots: Seq<Slot>, index: int, event: Event, other: int)
    requires
        0 <= index < slots.len(),
        0 <= other < slots.len(),
        other != index,
        slots[index] is Active,
    ensures
        slots.update(index, slot_after(slots[index]->Active_0.spec_step(event)))[other]
            == slots[other],
{
}

/// Replacing one slot moves one unit from the class of the old slot to the
/// class of the new one.
pub proof fn lemma_count_update(slots: Seq<Slot>, index: int, slot: Slot, kind: Kind)
    requires
        0 <= index < slots.len(),
    ensures
        count(slots.update(index, slot), kind) + (if kind_of(slots[index]) == kind {
            1nat
        } else {
            0nat
        }) == count(slots, kind) + (if kind_of(slot) == kind {
            1nat
        } else {
            0nat
        }),
    decreases slots.len(),
{
    let updated = slots.update(index, slot);
    if index == slots.len() - 1 {
        assert(updated.drop_last() =~= slots.drop_last());
    } else {
        lemma_count_update(slots.drop_last(), index, slot, kind);
        assert(updated.drop_last() =~= slots.drop_last().update(index, slot));
    }
}

/// Replacing one slot changes the sum of the readings by the difference
/// between the two slots' readings.
pub proof fn lemma_readings_update(slots: Seq<Slot>, index: int, slot: Slot)
    requires
        0 <= index < slots.len(),
    ensures
        readings(slots.update(index, slot)) + reading_of(slots[index]) == readings(slots)
            + reading_of(slot),
    decreases slots.len(),
{
    let updated = slots.update(index, slot);
    if index == slots.len() - 1 {
        assert(updated.drop_last() =~= slots.drop_last());
    } else {
        lemma_readings_update(slots.drop_last(), index, slot);
        assert(updated.drop_last() =~= slots.drop_last().update(index, slot));
    }
}

/// Every slot is of exactly one class: the five counts add up to the
/// number of slots.
pub proof fn lemma_counts_cover(slots: Seq<Slot>)
    ensures
        count(slots, Kind::Pending) + count(slots, Kind::Active) + count(slots, Kind::Landed)
            + count(slots, Kind::Skipped) + count(slots, Kind::Abandoned) == slots.len(),
    decreases slots.len(),
{
    if slots.len() > 0 {
        lemma_counts_cover(slots.drop_last());
    }
}

/// A class counts zero exactly if no slot is of it.
pub proof fn lemma_count_none(slots: Seq<Slot>, kind: Kind)
    ensures
        count(slots, kind) == 0 <==> forall|i: int|
            0 <= i < slots.len() ==> kind_of(#[trigger] slots[i]) != kind,
    decreases slots.len(),
{
    if slots.len() > 0 {
        let front = slots.drop_last();
        lemma_count_none(front, kind);
        if count(slots, kind) == 0 {
            assert forall|i: int| 0 <= i < slots.len() implies kind_of(#[trigger] slots[i])
                != kind by {
                if i < slots.len() - 1 {
                    assert(front[i] == slots[i]);
                }
            }
        }
        if forall|i: int| 0 <= i < slots.len() ==> kind_of(#[trigger] slots[i]) != kind {
            assert forall|i: int| 0 <= i < front.len() implies kind_of(#[trigger] front[i])
                != kind by {
                assert(front[i] == slots[i]);
            }
            assert(kind_of(slots[slots.len() - 1]) != kind);
        }
    }
}

/// No reading exceeds a `u64`, so the sum of the readings of `slots` is
/// at most that many times the largest `u64`.
pub proof fn lemma_readings_bound(slots: Seq<Slot>)
    ensures
        readings(slots) <= slots.len() * u64::MAX,
    decreases slots.len(),
{
    if slots.len() > 0 {
        lemma_readings_bound(slots.drop_last());
        assert(slots.len() * u64::MAX == (slots.len() - 1) * u64::MAX + u64::MAX)
            by (nonlinear_arith);
    }
}

} // verus!
