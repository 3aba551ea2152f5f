use wallet_batch::aggregator::Aggregator;

#[test]
fn aggregator_starts_at_zero() {
    assert_eq!(Aggregator::new().total(), 0);
}

#[test]
fn aggregator_adds_up_known_balances() {
    let mut total = Aggregator::new();
    for balance in [5u64, 0, 12, 7] {
        total.add(balance);
    }
    assert_eq!(total.total(), 24);
}

#[test]
fn aggregator_total_does_not_depend_on_the_order() {
    let orders: [[u64; 4]; 4] = [[5, 0, 12, 7], [7, 12, 0, 5], [0, 5, 7, 12], [12, 7, 5, 0]];
    for order in orders {
        let mut total = Aggregator::new();
        for balance in order {
            total.add(balance);
        }
        assert_eq!(total.total(), 24);
    }
}

#[test]
fn aggregator_holds_more_than_one_largest_balance() {
    let mut total = Aggregator::new();
    total.add(u64::MAX);
    total.add(u64::MAX);
    total.add(1);
    assert_eq!(total.total(), 2 * (u64::MAX as u128) + 1);
}
