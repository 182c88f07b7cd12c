use std::collections::HashMap;

use koncord::amount::Amount;
use koncord::client::Client;
use koncord::run;
use koncord::transaction::{Record, TransactionKind};

#[test]
fn clients_max() {
    let mut clients: HashMap<u16, Client> =
        HashMap::with_capacity(usize::try_from(u16::MAX).unwrap());

    let mut records: Vec<Record> = Vec::new();
    for id in 0..=u16::MAX {
        let tx: u32 = id as u32 + 1;
        records.push(Record::new(TransactionKind::Deposit, id, tx, Some(Amount::new(10, 1))));
    }

    run(&mut clients, &records).unwrap();
    assert_eq!(clients.len(), usize::from(u16::MAX) + 1);
    for (id, client) in clients.iter() {
        assert_eq!(client.id(), *id);
        assert_eq!(client.account().balance().total(), Amount::new(1, 0));
    }
}
