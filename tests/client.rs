use koncord::amount::{Amount, SCALE};
use koncord::client::{AccountInner, Balance, Client};

fn assert_client(
    client: &Client,
    id: u16,
    locked: bool,
    available: Amount,
    held: Amount,
    total: Amount,
) {
    assert_eq!(client.id(), id);
    assert_eq!(client.account().is_locked(), locked);
    let balance = client.account().balance();
    assert_eq!(balance.available(), available);
    assert_eq!(balance.held(), held);
    assert_eq!(balance.total(), total);
}

#[test]
fn client_new() {
    let zero = Amount::zero();
    let client = Client::new(42);
    assert_client(&client, 42, false, zero, zero, zero);
}

#[test]
fn client_new_constraints() {
    let zero = Amount::zero();
    let client = Client::new(u16::MIN);
    assert_client(&client, u16::MIN, false, zero, zero, zero);

    let client = Client::new(u16::MAX);
    assert_client(&client, u16::MAX, false, zero, zero, zero);
}

#[test]
fn client_deposit() {
    let zero = Amount::zero();
    let one_billion_dollars = Amount::new(1_000_000_000, 0);
    let mut client = Client::new(42);
    client.get_mut().deposit(one_billion_dollars);
    assert_client(&client, 42, false, one_billion_dollars, zero, one_billion_dollars);

    // Deposit should fail on locked account.
    let one = Amount::new(1, 0);
    let mut client = Client::new(1337);
    client.get_mut().deposit(one);
    client.get_mut().deposit(one_billion_dollars);
    client.get_mut().dispute(one_billion_dollars);
    client.get_mut().chargeback(one_billion_dollars);
    client.get_mut().deposit(one_billion_dollars);
    assert_client(&client, 1337, true, one, zero, one);

    // Deposit should fail on negative amount.
    let mut client = Client::new(24);
    let negative_one = Amount::new(-1, 0);
    client.get_mut().deposit(one);
    client.get_mut().deposit(negative_one);
    assert_client(&client, 24, false, one, zero, one);
}

#[test]
fn client_withdrawal() {
    let zero = Amount::zero();
    let one = Amount::new(1, 0);
    let one_billion_dollars = Amount::new(1_000_000_000, 0);
    let mut client = Client::new(42);

    client.get_mut().deposit(one);
    client.get_mut().deposit(one_billion_dollars);
    client.get_mut().withdraw(one_billion_dollars);
    assert_client(&client, 42, false, one, zero, one);

    // Withdrawal should fail on locked account.
    let leet = Amount::new(1337, 0);
    let mut client = Client::new(1337);
    client.get_mut().deposit(leet);
    client.get_mut().deposit(one_billion_dollars);
    client.get_mut().dispute(one_billion_dollars);
    client.get_mut().chargeback(one_billion_dollars);
    client.get_mut().withdraw(one);
    assert_client(&client, 1337, true, leet, zero, leet);

    // Withdrawal should fail on insufficient funds.
    let mut client = Client::new(0);
    client.get_mut().deposit(one);
    client.get_mut().withdraw(one_billion_dollars);
    assert_client(&client, 0, false, one, zero, one);

    // Withdrawal should fail if amount is negative.
    let mut client = Client::new(7);
    client.get_mut().withdraw(Amount::from_parts(-79228162514264337593543950335, 0));
    assert_client(&client, 7, false, zero, zero, zero);

    // Withdrawal should fail on insufficient funds no matter how small.
    let mut client = Client::new(101);
    client.get_mut().withdraw(Amount::new(1, SCALE));
    assert_client(&client, 101, false, zero, zero, zero);
    let mut client = Client::new(102);
    client.get_mut().withdraw(Amount::new(1, 28));
    assert_client(&client, 102, false, zero, zero, zero);
}

#[test]
fn client_dispute() {
    let zero = Amount::zero();
    let one = Amount::new(1, 0);
    let negative_one = Amount::new(-1, 0);
    let one_billion_dollars = Amount::new(1_000_000_000, 0);
    let one_billion_and_one = Amount::new(1_000_000_001, 0);
    let mut client = Client::new(42);
    client.get_mut().deposit(one);
    client.get_mut().deposit(one_billion_dollars);
    client.get_mut().dispute(one_billion_dollars);
    assert_client(&client, 42, false, one, one_billion_dollars, one_billion_and_one);

    // Dispute should fail on locked account.
    client.get_mut().chargeback(one_billion_dollars);
    client.get_mut().dispute(one_billion_dollars);
    assert_client(&client, 42, true, one, zero, one);

    // Dispute should fail on negative amount.
    let mut client = Client::new(24);
    client.get_mut().deposit(one);
    client.get_mut().deposit(one_billion_dollars);
    client.get_mut().dispute(negative_one);
    assert_client(&client, 24, false, one_billion_and_one, zero, one_billion_and_one);
}

#[test]
fn client_resolve() {
    let zero = Amount::zero();
    let one = Amount::new(1, 0);
    let negative_one = Amount::new(-1, 0);
    let one_billion_dollars = Amount::new(1_000_000_000, 0);
    let one_billion_and_one = Amount::new(1_000_000_001, 0);
    let mut client = Client::new(42);
    client.get_mut().deposit(one);
    client.get_mut().deposit(one_billion_dollars);
    client.get_mut().dispute(one_billion_dollars);
    client.get_mut().resolve(one_billion_dollars);
    assert_client(&client, 42, false, one_billion_and_one, zero, one_billion_and_one);

    // Resolve should fail on locked account.
    client.get_mut().dispute(one_billion_dollars);
    client.get_mut().chargeback(one_billion_dollars);
    client.get_mut().resolve(one_billion_dollars);
    assert_client(&client, 42, true, one, zero, one);

    // Resolve should fail on negative amount.
    let mut client = Client::new(24);
    client.get_mut().deposit(one);
    client.get_mut().deposit(one_billion_dollars);
    client.get_mut().dispute(one);
    client.get_mut().resolve(negative_one);
    assert_client(&client, 24, false, one_billion_dollars, one, one_billion_and_one);
}

#[test]
fn client_chargeback() {
    let zero = Amount::zero();
    let one = Amount::new(1, 0);
    let negative_one = Amount::new(-1, 0);
    let one_billion_dollars = Amount::new(1_000_000_000, 0);
    let mut client = Client::new(42);
    client.get_mut().deposit(one);
    client.get_mut().deposit(one_billion_dollars);
    client.get_mut().dispute(one_billion_dollars);
    client.get_mut().chargeback(one_billion_dollars);
    assert_client(&client, 42, true, one, zero, one);

    // Deposits should fail after chargeback.
    client.get_mut().deposit(one_billion_dollars);
    client.get_mut().deposit(one);
    client.get_mut().deposit(negative_one);
    assert_client(&client, 42, true, one, zero, one);

    // Withdrawals should fail after chargeback.
    client.get_mut().withdraw(one_billion_dollars);
    client.get_mut().withdraw(one);
    client.get_mut().withdraw(negative_one);
    assert_client(&client, 42, true, one, zero, one);

    // Disputes should fail after chargeback.
    client.get_mut().dispute(one_billion_dollars);
    client.get_mut().dispute(one);
    client.get_mut().dispute(negative_one);
    assert_client(&client, 42, true, one, zero, one);

    // Resolutions should fail after chargeback.
    client.get_mut().resolve(one_billion_dollars);
    client.get_mut().resolve(one);
    client.get_mut().resolve(negative_one);
    assert_client(&client, 42, true, one, zero, one);

    // Chargebacks should fail after chargeback.
    client.get_mut().chargeback(one_billion_dollars);
    client.get_mut().chargeback(one);
    client.get_mut().chargeback(negative_one);
    assert_client(&client, 42, true, one, zero, one);
}

#[test]
fn account_inner_new() {
    let zero = Amount::zero();
    let account = AccountInner::new();
    match account {
        AccountInner::Open { balance } => {
            assert_eq!(balance.available(), zero);
            assert_eq!(balance.held(), zero);
            assert_eq!(balance.total(), zero);
        }
        AccountInner::Frozen { .. } => panic!("a new account is open"),
    }
}

#[test]
fn balance_new() {
    let zero = Amount::zero();
    let balance = Balance::new();
    assert_eq!(balance.available(), zero);
    assert_eq!(balance.held(), zero);
    assert_eq!(balance.total(), zero);
}

#[test]
fn clients_are_ordered_by_id() {
    let mut low = Client::new(1);
    low.get_mut().deposit(Amount::new(100, 0));
    let high = Client::new(2);
    assert!(low < high);
    assert!(high > low);
    assert_eq!(
        Client::new(7).partial_cmp(&Client::new(7)),
        Some(std::cmp::Ordering::Equal)
    );
    let mut clients = vec![Client::new(9), Client::new(3), Client::new(5)];
    clients.sort_by(|a, b| a.partial_cmp(b).unwrap());
    let ids: Vec<u16> = clients.iter().map(|c| c.id()).collect();
    assert_eq!(ids, vec![3, 5, 9]);
}
