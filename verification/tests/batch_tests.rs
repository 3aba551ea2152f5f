use std::collections::HashMap;
use std::collections::HashSet;
use wallet_batch::batch::Batch;
use wallet_batch::batch::BatchSummary;
use wallet_batch::batch::Dispatch;
use wallet_batch::batch::Entry;
use wallet_batch::batch::WalletEntry;
use wallet_batch::batch::MAX_IN_FLIGHT;
use wallet_batch::chain::InstructionPlan;
use wallet_batch::retry::RetryPolicy;
use wallet_batch::tool::TokenAccountEntry;
use wallet_batch::tool::Tool;
use wallet_batch::types::AbandonReason;
use wallet_batch::types::Address;
use wallet_batch::types::Asset;
use wallet_batch::types::Operation;
use wallet_batch::types::ReferenceHash;
use wallet_batch::types::Signature;
use wallet_batch::types::SkipReason;
use wallet_batch::types::SubmissionOutcome;
use wallet_batch::worker::Directive;
use wallet_batch::worker::Event;
use wallet_batch::worker::Job;

/// A chain in memory. Calls made for an entry listed in `failing` fail.
struct MockChain {
    native: HashMap<Address, u64>,
    tokens: HashMap<Address, u64>,
    failing: HashSet<usize>,
    /// How many submissions the chain still rejects before it accepts one.
    rejections: u64,
    submitted: u64,
    slept: u64,
}

impl MockChain {
    fn empty() -> MockChain {
        MockChain {
            native: HashMap::new(),
            tokens: HashMap::new(),
            failing: HashSet::new(),
            rejections: 0,
            submitted: 0,
            slept: 0,
        }
    }

    fn apply(&mut self, plan: InstructionPlan) -> bool {
        match plan {
            InstructionPlan::TransferNative { from, to, lamports } => {
                let held = self.native.get(&from).copied().unwrap_or(0);
                if held < lamports {
                    return false;
                }
                self.native.insert(from, held - lamports);
                *self.native.entry(to).or_insert(0) += lamports;
                true
            }
            InstructionPlan::TransferTokenChecked { source, destination, amount, .. } => {
                let held = match self.tokens.get(&source) {
                    Some(held) => *held,
                    None => return false,
                };
                if held < amount || !self.tokens.contains_key(&destination) {
                    return false;
                }
                self.tokens.insert(source, held - amount);
                *self.tokens.entry(destination).or_insert(0) += amount;
                true
            }
            InstructionPlan::CloseTokenAccount { account, .. } => {
                if self.tokens.get(&account) == Some(&0) {
                    self.tokens.remove(&account);
                    true
                } else {
                    false
                }
            }
            InstructionPlan::CreateTokenAccount { .. } => {
                let account = plan.encode().accounts[1].address;
                if self.tokens.contains_key(&account) {
                    false
                } else {
                    self.tokens.insert(account, 0);
                    true
                }
            }
        }
    }

    fn answer(&mut self, index: usize, directive: Directive) -> Event {
        let fails = self.failing.contains(&index);
        match directive {
            Directive::QueryNativeBalance(address) => {
                Event::Balance(if fails { None } else { self.native.get(&address).copied() })
            }
            Directive::QueryTokenBalance(address) => {
                Event::Balance(if fails { None } else { self.tokens.get(&address).copied() })
            }
            Directive::CheckAccountExists(address) => {
                Event::Exists(!fails && self.tokens.contains_key(&address))
            }
            Directive::FetchReference => Event::Reference(if fails {
                None
            } else {
                Some(ReferenceHash { bytes: [(self.submitted % 251) as u8; 32] })
            }),
            Directive::SignAndSubmit { plan, .. } => {
                if fails {
                    return Event::Confirmation(None);
                }
                if self.rejections > 0 {
                    self.rejections -= 1;
                    return Event::Confirmation(None);
                }
                if self.apply(plan) {
                    self.submitted += 1;
                    Event::Confirmation(Some(Signature { bytes: [(index % 251) as u8; 64] }))
                } else {
                    Event::Confirmation(None)
                }
            }
            Directive::Sleep { millis } => {
                self.slept += millis;
                Event::Elapsed
            }
            Directive::Finish { .. } => panic!("a finished worker was asked again"),
        }
    }
}

/// Which of the in-flight entries is answered next.
#[derive(Clone, Copy)]
enum Order {
    Oldest,
    Newest,
    Shuffled(u64),
}

struct Run {
    summary: BatchSummary,
    outcomes: Vec<SubmissionOutcome>,
    most_in_flight: usize,
}

/// Drives a batch to completion against the mock chain.
fn drive(mut batch: Batch, chain: &mut MockChain, order: Order) -> Run {
    let mut waiting: Vec<(usize, Directive)> = Vec::new();
    let mut most_in_flight = 0usize;
    let mut seed = match order {
        Order::Shuffled(seed) => seed,
        _ => 0,
    };
    let summary = loop {
        let done = loop {
            match batch.dispatch() {
                Dispatch::Start { index, directive } => waiting.push((index, directive)),
                Dispatch::Wait => break None,
                Dispatch::Complete(summary) => break Some(summary),
            }
        };
        assert_eq!(batch.in_flight(), waiting.len());
        assert!(batch.in_flight() <= MAX_IN_FLIGHT);
        most_in_flight = most_in_flight.max(waiting.len());
        if let Some(summary) = done {
            break summary;
        }
        let at = match order {
            Order::Oldest => 0,
            Order::Newest => waiting.len() - 1,
            Order::Shuffled(_) => {
                seed = seed.wrapping_mul(6364136223846793005).wrapping_add(1442695040888963407);
                ((seed >> 33) as usize) % waiting.len()
            }
        };
        let (index, directive) = waiting.remove(at);
        let event = chain.answer(index, directive);
        match batch.deliver(index, event) {
            Some(Directive::Finish { outcome, .. }) => {
                assert_eq!(batch.outcome(index), Some(outcome));
            }
            Some(next) => waiting.push((index, next)),
            None => panic!("entry {} was not in flight", index),
        }
    };
    assert!(waiting.is_empty());
    assert_eq!(batch.summary(), summary);
    let outcomes = (0..batch.len())
        .map(|index| batch.outcome(index).expect("an entry without an outcome"))
        .collect();
    Run { summary, outcomes, most_in_flight }
}

fn batch_wallet(index: usize) -> Address {
    let mut bytes = [0u8; 32];
    bytes[0] = (index % 256) as u8;
    bytes[1] = (index / 256) as u8;
    bytes[31] = 1;
    Address { bytes }
}

fn batch_main() -> Address {
    Address { bytes: [200; 32] }
}

fn batch_mint() -> Address {
    Address { bytes: [99; 32] }
}

fn batch_token() -> Asset {
    Asset::Token { mint: batch_mint(), decimals: 6 }
}

fn batch_wallets(count: usize) -> Vec<WalletEntry> {
    (0..count).map(|index| WalletEntry::Loaded(batch_wallet(index))).collect()
}

fn batch_token_account(owner: Address) -> Address {
    let expected = spl_associated_token_account::get_associated_token_address(
        &solana_program::pubkey::Pubkey::new_from_array(owner.bytes),
        &solana_program::pubkey::Pubkey::new_from_array(batch_mint().bytes),
    );
    Address { bytes: expected.to_bytes() }
}

fn batch_tool() -> Tool {
    Tool::new(RetryPolicy::unbounded())
}

fn accounted(summary: &BatchSummary) -> usize {
    summary.landed + summary.skipped + summary.abandoned
}

#[test]
fn empty_batch_is_complete_at_once() {
    let mut batch = batch_tool().collect(&Vec::new(), batch_main(), Asset::Native);
    assert_eq!(batch.len(), 0);
    assert_eq!(
        batch.dispatch(),
        Dispatch::Complete(BatchSummary { landed: 0, skipped: 0, abandoned: 0, total: 0 })
    );
}

#[test]
fn batch_accounts_for_every_wallet() {
    for count in [0usize, 1, 2, 19, 20, 21, 57] {
        let mut chain = MockChain::empty();
        chain.native.insert(batch_main(), 1_000_000);
        let batch =
            batch_tool().distribute(&batch_wallets(count), batch_main(), 10, Asset::Native);
        let run = drive(batch, &mut chain, Order::Shuffled(count as u64));
        assert_eq!(accounted(&run.summary), count);
        assert_eq!(run.outcomes.len(), count);
        assert_eq!(run.summary.landed, count);
    }
}

#[test]
fn batch_counts_each_kind_of_outcome() {
    let mut chain = MockChain::empty();
    chain.native.insert(batch_wallet(0), 500);
    chain.native.insert(batch_wallet(1), 0);
    chain.native.insert(batch_wallet(2), 700);
    chain.native.insert(batch_wallet(4), 900);
    chain.failing.insert(4);
    let wallets = vec![
        WalletEntry::Loaded(batch_wallet(0)),
        WalletEntry::Loaded(batch_wallet(1)),
        WalletEntry::Loaded(batch_wallet(2)),
        WalletEntry::Unreadable,
        WalletEntry::Loaded(batch_wallet(4)),
    ];
    let batch = batch_tool().collect(&wallets, batch_main(), Asset::Native);
    let run = drive(batch, &mut chain, Order::Oldest);
    assert_eq!(
        run.summary,
        BatchSummary { landed: 2, skipped: 3, abandoned: 0, total: 0 }
    );
    assert_eq!(run.outcomes[1], SubmissionOutcome::Skipped(SkipReason::NothingToCollect));
    assert_eq!(run.outcomes[3], SubmissionOutcome::Skipped(SkipReason::UnreadableWallet));
    assert_eq!(run.outcomes[4], SubmissionOutcome::Skipped(SkipReason::BalanceUnavailable));
    assert_eq!(chain.native[&batch_main()], 1200);
    assert_eq!(chain.native[&batch_wallet(0)], 0);
    assert_eq!(chain.native[&batch_wallet(4)], 900);
}

#[test]
fn unreadable_wallets_never_take_a_permit() {
    let wallets = vec![WalletEntry::Unreadable; 30];
    let mut batch = batch_tool().collect(&wallets, batch_main(), Asset::Native);
    assert_eq!(batch.in_flight(), 0);
    assert_eq!(
        batch.dispatch(),
        Dispatch::Complete(BatchSummary { landed: 0, skipped: 30, abandoned: 0, total: 0 })
    );
    assert_eq!(batch.outcome(29), Some(SubmissionOutcome::Skipped(SkipReason::UnreadableWallet)));
    assert_eq!(batch.outcome(30), None);
}

#[test]
fn at_most_twenty_work_items_are_in_flight() {
    assert_eq!(MAX_IN_FLIGHT, 20);
    for order in [Order::Oldest, Order::Newest, Order::Shuffled(7)] {
        let mut chain = MockChain::empty();
        chain.native.insert(batch_main(), u64::MAX);
        let batch = batch_tool().distribute(&batch_wallets(100), batch_main(), 1, Asset::Native);
        let run = drive(batch, &mut chain, order);
        assert_eq!(run.most_in_flight, 20);
        assert_eq!(run.summary.landed, 100);
    }
}

#[test]
fn twenty_first_work_item_waits_for_a_permit() {
    let mut batch = batch_tool().check_wallet_balance(&batch_wallets(21), Asset::Native);
    for index in 0..20 {
        match batch.dispatch() {
            Dispatch::Start { index: started, directive } => {
                assert_eq!(started, index);
                assert_eq!(directive, Directive::QueryNativeBalance(batch_wallet(index)));
            }
            other => panic!("unexpected decision {:?}", other),
        }
    }
    assert_eq!(batch.in_flight(), 20);
    assert_eq!(batch.dispatch(), Dispatch::Wait);
    assert_eq!(batch.deliver(20, Event::Balance(Some(1))), None);
    assert_eq!(batch.deliver(3, Event::Balance(Some(1))), Some(Directive::Sleep { millis: 50 }));
    assert_eq!(batch.in_flight(), 20);
    assert_eq!(batch.dispatch(), Dispatch::Wait);
    assert!(matches!(batch.deliver(3, Event::Elapsed), Some(Directive::Finish { .. })));
    assert_eq!(batch.in_flight(), 19);
    assert!(matches!(batch.dispatch(), Dispatch::Start { index: 20, .. }));
    assert_eq!(batch.in_flight(), 20);
}

#[test]
fn permit_is_held_through_the_pause() {
    let mut batch = batch_tool().check_wallet_balance(&batch_wallets(1), Asset::Native);
    assert!(matches!(batch.dispatch(), Dispatch::Start { index: 0, .. }));
    assert_eq!(batch.deliver(0, Event::Balance(Some(9))), Some(Directive::Sleep { millis: 50 }));
    assert_eq!(batch.in_flight(), 1);
    assert_eq!(batch.outcome(0), None);
    assert_eq!(
        batch.deliver(0, Event::Elapsed),
        Some(Directive::Finish {
            outcome: SubmissionOutcome::Skipped(SkipReason::NoSubmissionNeeded),
            balance: Some(9),
        })
    );
    assert_eq!(batch.in_flight(), 0);
    assert_eq!(batch.deliver(0, Event::Elapsed), None);
}

#[test]
fn balances_add_up_whatever_the_order_of_completion() {
    let balances = [5u64, 0, 12, 7];
    for order in [
        Order::Oldest,
        Order::Newest,
        Order::Shuffled(1),
        Order::Shuffled(2),
        Order::Shuffled(3),
    ] {
        let mut chain = MockChain::empty();
        for (index, balance) in balances.iter().enumerate() {
            chain.native.insert(batch_wallet(index), *balance);
        }
        let batch = batch_tool().check_wallet_balance(&batch_wallets(4), Asset::Native);
        let run = drive(batch, &mut chain, order);
        assert_eq!(run.summary.total, 24);
        assert_eq!(accounted(&run.summary), 4);
    }
}

#[test]
fn token_balances_add_up_and_missing_accounts_count_nothing() {
    let mut chain = MockChain::empty();
    chain.tokens.insert(batch_token_account(batch_wallet(0)), 40);
    chain.tokens.insert(batch_token_account(batch_wallet(2)), 2);
    let batch = batch_tool().check_wallet_balance(&batch_wallets(3), batch_token());
    let run = drive(batch, &mut chain, Order::Newest);
    assert_eq!(run.summary, BatchSummary { landed: 0, skipped: 3, abandoned: 0, total: 42 });
    assert_eq!(run.outcomes[1], SubmissionOutcome::Skipped(SkipReason::BalanceUnavailable));
}

#[test]
fn total_holds_the_sum_of_the_largest_balances() {
    let mut chain = MockChain::empty();
    for index in 0..3 {
        chain.native.insert(batch_wallet(index), u64::MAX);
    }
    let batch = batch_tool().check_wallet_balance(&batch_wallets(3), Asset::Native);
    let run = drive(batch, &mut chain, Order::Oldest);
    assert_eq!(run.summary.total, 3 * (u64::MAX as u128));
}

#[test]
fn closing_twice_lands_first_and_skips_afterwards() {
    let mut chain = MockChain::empty();
    for index in 0..6 {
        chain.tokens.insert(batch_token_account(batch_wallet(index)), 0);
    }
    chain.tokens.insert(batch_token_account(batch_wallet(6)), 15);
    let wallets = batch_wallets(8);
    let first =
        drive(batch_tool().close(&wallets, batch_main(), batch_mint()), &mut chain, Order::Newest);
    assert_eq!(first.summary, BatchSummary { landed: 6, skipped: 2, abandoned: 0, total: 0 });
    assert_eq!(first.outcomes[6], SubmissionOutcome::Skipped(SkipReason::NonZeroBalance));
    assert_eq!(first.outcomes[7], SubmissionOutcome::Skipped(SkipReason::AccountUnavailable));
    let second =
        drive(batch_tool().close(&wallets, batch_main(), batch_mint()), &mut chain, Order::Oldest);
    assert_eq!(second.summary, BatchSummary { landed: 0, skipped: 8, abandoned: 0, total: 0 });
    for index in 0..6 {
        assert_eq!(
            second.outcomes[index],
            SubmissionOutcome::Skipped(SkipReason::AccountUnavailable)
        );
    }
    assert!(chain.tokens.contains_key(&batch_token_account(batch_wallet(6))));
}

#[test]
fn one_failing_wallet_leaves_the_others_alone() {
    let mut chain = MockChain::empty();
    chain.native.insert(batch_main(), 1_000);
    chain.failing.insert(3);
    let batch = batch_tool().distribute(&batch_wallets(30), batch_main(), 10, Asset::Native);
    let run = drive(batch, &mut chain, Order::Shuffled(11));
    for (index, outcome) in run.outcomes.iter().enumerate() {
        if index == 3 {
            assert_eq!(
                *outcome,
                SubmissionOutcome::Abandoned(AbandonReason::ReferenceUnavailable)
            );
        } else {
            assert!(matches!(outcome, SubmissionOutcome::Landed(_)));
        }
    }
    assert_eq!(run.summary, BatchSummary { landed: 29, skipped: 0, abandoned: 1, total: 0 });
    assert_eq!(chain.native[&batch_main()], 1_000 - 29 * 10);
}

#[test]
fn fault_of_one_worker_abandons_only_its_wallet() {
    let mut batch = batch_tool().check_wallet_balance(&batch_wallets(2), Asset::Native);
    assert!(matches!(batch.dispatch(), Dispatch::Start { index: 0, .. }));
    assert!(matches!(batch.dispatch(), Dispatch::Start { index: 1, .. }));
    assert_eq!(
        batch.deliver(0, Event::Fault),
        Some(Directive::Finish {
            outcome: SubmissionOutcome::Abandoned(AbandonReason::InternalFailure),
            balance: None,
        })
    );
    assert_eq!(batch.outcome(1), None);
    assert_eq!(batch.in_flight(), 1);
    assert_eq!(batch.deliver(1, Event::Balance(Some(4))), Some(Directive::Sleep { millis: 50 }));
    assert!(batch.deliver(1, Event::Elapsed).is_some());
    assert_eq!(
        batch.dispatch(),
        Dispatch::Complete(BatchSummary { landed: 0, skipped: 1, abandoned: 1, total: 4 })
    );
}

#[test]
fn rejected_submissions_are_retried_until_they_land() {
    let mut chain = MockChain::empty();
    chain.native.insert(batch_main(), 100);
    chain.rejections = 3;
    let batch = batch_tool().distribute(&batch_wallets(1), batch_main(), 10, Asset::Native);
    let run = drive(batch, &mut chain, Order::Oldest);
    assert_eq!(run.summary.landed, 1);
    assert_eq!(chain.slept, 3 * 1000 + 50);
}

#[test]
fn limited_policy_abandons_what_never_lands() {
    let mut chain = MockChain::empty();
    chain.native.insert(batch_main(), 5);
    let tool = Tool::new(RetryPolicy::limited(2));
    let batch = tool.distribute(&batch_wallets(1), batch_main(), 10, Asset::Native);
    let run = drive(batch, &mut chain, Order::Oldest);
    assert_eq!(run.outcomes[0], SubmissionOutcome::Abandoned(AbandonReason::Timeout));
    assert_eq!(run.summary, BatchSummary { landed: 0, skipped: 0, abandoned: 1, total: 0 });
}

#[test]
fn token_distribution_creates_missing_accounts() {
    let mut chain = MockChain::empty();
    chain.tokens.insert(batch_token_account(batch_main()), 1_000);
    chain.tokens.insert(batch_token_account(batch_wallet(1)), 5);
    let batch = batch_tool().distribute(&batch_wallets(3), batch_main(), 100, batch_token());
    let run = drive(batch, &mut chain, Order::Shuffled(5));
    assert_eq!(run.summary.landed, 3);
    assert_eq!(chain.tokens[&batch_token_account(batch_main())], 700);
    assert_eq!(chain.tokens[&batch_token_account(batch_wallet(0))], 100);
    assert_eq!(chain.tokens[&batch_token_account(batch_wallet(1))], 105);
    assert_eq!(chain.tokens[&batch_token_account(batch_wallet(2))], 100);
}

#[test]
fn token_collection_sweeps_every_account_that_holds_tokens() {
    let mut chain = MockChain::empty();
    chain.tokens.insert(batch_token_account(batch_wallet(0)), 30);
    chain.tokens.insert(batch_token_account(batch_wallet(1)), 0);
    chain.tokens.insert(batch_token_account(batch_wallet(3)), 12);
    let batch = batch_tool().collect(&batch_wallets(4), batch_main(), batch_token());
    let run = drive(batch, &mut chain, Order::Oldest);
    assert_eq!(run.summary, BatchSummary { landed: 2, skipped: 2, abandoned: 0, total: 0 });
    assert_eq!(run.outcomes[1], SubmissionOutcome::Skipped(SkipReason::NothingToCollect));
    assert_eq!(run.outcomes[2], SubmissionOutcome::Skipped(SkipReason::BalanceUnavailable));
    assert_eq!(chain.tokens[&batch_token_account(batch_main())], 42);
    assert_eq!(chain.tokens[&batch_token_account(batch_wallet(0))], 0);
}

#[test]
fn listed_token_accounts_are_closed_whatever_their_mint() {
    let mut chain = MockChain::empty();
    let first = Address { bytes: [61; 32] };
    let second = Address { bytes: [62; 32] };
    let third = Address { bytes: [63; 32] };
    chain.tokens.insert(first, 0);
    chain.tokens.insert(second, 8);
    let accounts = vec![
        TokenAccountEntry::Account { owner: batch_wallet(0), account: first },
        TokenAccountEntry::Account { owner: batch_wallet(0), account: second },
        TokenAccountEntry::Unreadable,
        TokenAccountEntry::Account { owner: batch_wallet(1), account: third },
    ];
    let batch = batch_tool().close_accounts(&accounts, batch_main());
    let run = drive(batch, &mut chain, Order::Oldest);
    assert_eq!(
        run.outcomes[1..],
        [
            SubmissionOutcome::Skipped(SkipReason::NonZeroBalance),
            SubmissionOutcome::Skipped(SkipReason::UnreadableWallet),
            SubmissionOutcome::Skipped(SkipReason::AccountUnavailable),
        ]
    );
    assert!(matches!(run.outcomes[0], SubmissionOutcome::Landed(_)));
    assert!(!chain.tokens.contains_key(&first));
}

#[test]
fn batch_from_entries_starts_jobs_in_order() {
    let entries = vec![
        Entry::Unreadable,
        Entry::Ready(Job::ReadNative { wallet: batch_wallet(1) }),
        Entry::Ready(Job::ReadToken { account: batch_wallet(2) }),
    ];
    let mut batch = Batch::from_entries(&entries, RetryPolicy::unbounded());
    assert_eq!(batch.len(), 3);
    assert_eq!(batch.summary(), BatchSummary { landed: 0, skipped: 1, abandoned: 0, total: 0 });
    assert_eq!(
        batch.dispatch(),
        Dispatch::Start { index: 1, directive: Directive::QueryNativeBalance(batch_wallet(1)) }
    );
    assert_eq!(
        batch.dispatch(),
        Dispatch::Start { index: 2, directive: Directive::QueryTokenBalance(batch_wallet(2)) }
    );
    assert_eq!(batch.dispatch(), Dispatch::Wait);
}

#[test]
fn batch_new_resolves_every_wallet() {
    let wallets = vec![WalletEntry::Loaded(batch_wallet(0)), WalletEntry::Unreadable];
    let mut batch = Batch::new(
        &wallets,
        batch_main(),
        Operation::CloseIfEmpty,
        batch_token(),
        RetryPolicy::unbounded(),
    );
    assert_eq!(
        batch.dispatch(),
        Dispatch::Start {
            index: 0,
            directive: Directive::QueryTokenBalance(batch_token_account(batch_wallet(0))),
        }
    );
    assert_eq!(batch.outcome(1), Some(SubmissionOutcome::Skipped(SkipReason::UnreadableWallet)));
}
