//! Transaction ledger: applies deposits, withdrawals and the dispute protocol
//! to client accounts held in fixed-point amounts.
use vstd::prelude::*;

use std::collections::HashMap;

pub mod amount;
pub mod client;
pub mod transaction;

use crate::amount::Amount;
use crate::client::{lemma_apply_keeps_total_sum, AccountView, Client, ClientView};
use crate::transaction::{
    ChargedBack, DisputeLookup, InvalidTransitionError, Processing, Received, Record, Resolved,
    Stage, Transaction, TransactionKind,
};

verus! {

broadcast use vstd::std_specs::hash::group_hash_axioms;

/// The amount of the first record in `source`, from position `i` on, that has
/// transaction ID `tx` and carries an amount.
pub open spec fn lookup_from(source: Seq<Record>, tx: u32, i: int) -> Option<Amount>
    decreases source.len() - i,
{
    if i < 0 || i >= source.len() {
        None
    } else if source[i].tx == tx && source[i].amount is Some {
        source[i].amount
    } else {
        lookup_from(source, tx, i + 1)
    }
}

/// The amount of the first record in `source` that has transaction ID `tx`
/// and carries an amount, whatever its kind.
pub open spec fn first_amount(source: Seq<Record>, tx: u32) -> Option<Amount> {
    lookup_from(source, tx, 0)
}

/// The clients and the outstanding disputes, by transaction ID, of a run.
pub struct LedgerView {
    pub clients: Map<u16, ClientView>,
    pub disputes: Map<u32, Amount>,
}

/// The client with ID `id`, or a new one where there is none yet.
pub open spec fn client_of(clients: Map<u16, ClientView>, id: u16) -> ClientView {
    if clients.contains_key(id) {
        clients[id]
    } else {
        ClientView::new(id)
    }
}

/// The client with `account` in place of its account.
pub open spec fn with_account(client: ClientView, account: AccountView) -> ClientView {
    ClientView { id: client.id, account }
}

/// The client and dispute cache after `record`, read against `source`, and
/// whether the record was well formed.
///
/// A deposit or withdrawal without an amount is malformed. A dispute takes
/// the amount of the first record of `source` with its transaction ID, and
/// enters it in the cache where the account accepts the dispute. A resolve or
/// chargeback takes, and removes, the cached amount of its transaction. A
/// dispute, resolve or chargeback that finds no amount changes nothing.
pub open spec fn process_spec(
    source: Seq<Record>,
    client: ClientView,
    disputes: Map<u32, Amount>,
    record: Record,
) -> (ClientView, Map<u32, Amount>, bool) {
    let account = client.account;
    match record.kind {
        TransactionKind::Deposit | TransactionKind::Withdrawal => match record.amount {
            Some(a) => (with_account(client, account.apply(record.kind, a@)), disputes, true),
            None => (client, disputes, false),
        },
        TransactionKind::Dispute => match first_amount(source, record.tx) {
            Some(a) => (
                with_account(client, account.apply(TransactionKind::Dispute, a@)),
                if account.accepts(TransactionKind::Dispute, a@) {
                    disputes.insert(record.tx, a)
                } else {
                    disputes
                },
                true,
            ),
            None => (client, disputes, true),
        },
        TransactionKind::Resolve | TransactionKind::Chargeback => if disputes.contains_key(
            record.tx,
        ) {
            (
                with_account(client, account.apply(record.kind, disputes[record.tx]@)),
                disputes.remove(record.tx),
                true,
            )
        } else {
            (client, disputes, true)
        },
    }
}

/// The ledger after `record`, whose client is created first where it is new,
/// and whether the record was well formed.
pub open spec fn step(source: Seq<Record>, s: LedgerView, record: Record) -> (LedgerView, bool) {
    let (client, disputes, ok) = process_spec(
        source,
        client_of(s.clients, record.client),
        s.disputes,
        record,
    );
    (LedgerView { clients: s.clients.insert(record.client, client), disputes }, ok)
}

/// The ledger after the first `n` records of `source`, in order, and whether
/// all were well formed. The run stops at the first malformed record.
pub open spec fn replay(source: Seq<Record>, init: LedgerView, n: nat) -> (LedgerView, bool)
    decreases n,
{
    if n == 0 {
        (init, true)
    } else {
        let (s, ok) = replay(source, init, (n - 1) as nat);
        if !ok {
            (s, false)
        } else {
            step(source, s, source[n - 1])
        }
    }
}

/// The clients of a map of clients, as values.
pub open spec fn client_views(clients: Map<u16, Client>) -> Map<u16, ClientView> {
    clients.map_values(|c: Client| c@)
}

/// Every client of the ledger has total funds equal to available plus held
/// funds.
pub open spec fn totals_are_sums(clients: Map<u16, ClientView>) -> bool {
    forall|id: u16| #[trigger] clients.contains_key(id) ==> clients[id].account.balance.wf()
}

/// Every transaction in the dispute cache is one whose amount `source` holds.
pub open spec fn disputes_are_known(source: Seq<Record>, disputes: Map<u32, Amount>) -> bool {
    forall|tx: u32| #[trigger] disputes.contains_key(tx) ==> first_amount(source, tx) is Some
}

/// The ledger with client `id` present, created new where it was missing.
pub open spec fn with_client(clients: Map<u16, ClientView>, id: u16) -> Map<u16, ClientView> {
    clients.insert(id, client_of(clients, id))
}

/// At every point of a run, every client's total funds are the sum of its
/// available and held funds.
pub proof fn lemma_replay_keeps_total_sums(source: Seq<Record>, init: LedgerView, n: nat)
    requires
        n <= source.len(),
        totals_are_sums(init.clients),
    ensures
        totals_are_sums(replay(source, init, n).0.clients),
    decreases n,
{
    if n > 0 {
        lemma_replay_keeps_total_sums(source, init, (n - 1) as nat);
        let (s, ok) = replay(source, init, (n - 1) as nat);
        if ok {
            let record = source[n - 1];
            let client = client_of(s.clients, record.client);
            assert(client.account.balance.wf());
            let c = process_spec(source, client, s.disputes, record).0;
            match record.kind {
                TransactionKind::Deposit | TransactionKind::Withdrawal => {
                    if let Some(a) = record.amount {
                        lemma_apply_keeps_total_sum(client.account, record.kind, a@);
                    }
                },
                TransactionKind::Dispute => {
                    if let Some(a) = first_amount(source, record.tx) {
                        lemma_apply_keeps_total_sum(client.account, record.kind, a@);
                    }
                },
                _ => {
                    if s.disputes.contains_key(record.tx) {
                        lemma_apply_keeps_total_sum(
                            client.account,
                            record.kind,
                            s.disputes[record.tx]@,
                        );
                    }
                },
            }
            assert(c.account.balance.wf());
        }
    }
}

/// A run that starts with an empty dispute cache only ever caches
/// transactions whose amount the source holds.
pub proof fn lemma_replay_disputes_are_known(source: Seq<Record>, init: LedgerView, n: nat)
    requires
        n <= source.len(),
        disputes_are_known(source, init.disputes),
    ensures
        disputes_are_known(source, replay(source, init, n).0.disputes),
    decreases n,
{
    if n > 0 {
        lemma_replay_disputes_are_known(source, init, (n - 1) as nat);
    }
}

/// A dispute, resolve or chargeback of a transaction that no record of the
/// source carries an amount for changes no client and is no error; at most
/// its client is created.
pub proof fn lemma_unknown_transaction_is_noop(source: Seq<Record>, s: LedgerView, record: Record)
    requires
        record.kind != TransactionKind::Deposit,
        record.kind != TransactionKind::Withdrawal,
        first_amount(source, record.tx) is None,
        disputes_are_known(source, s.disputes),
    ensures
        step(source, s, record) == (
            LedgerView { clients: with_client(s.clients, record.client), disputes: s.disputes },
            true,
        ),
{
}

/// After a resolve or chargeback of a transaction, a second resolve or
/// chargeback of the same transaction changes no client and is no error; at
/// most its client is created.
pub proof fn lemma_dispute_is_settled_once(
    source: Seq<Record>,
    s: LedgerView,
    first: Record,
    second: Record,
)
    requires
        first.kind == TransactionKind::Resolve || first.kind == TransactionKind::Chargeback,
        second.kind == TransactionKind::Resolve || second.kind == TransactionKind::Chargeback,
        first.tx == second.tx,
    ensures
        ({
            let (s1, ok1) = step(source, s, first);
            &&& ok1
            &&& step(source, s1, second) == (
                LedgerView { clients: with_client(s1.clients, second.client), disputes: s1.disputes },
                true,
            )
        }),
{
}

/// Once a run has stopped at a malformed record, further records change
/// nothing.
proof fn lemma_replay_stays_stopped(source: Seq<Record>, init: LedgerView, n: nat, m: nat)
    requires
        n <= m,
        !replay(source, init, n).1,
    ensures
        replay(source, init, m) == replay(source, init, n),
    decreases m,
{
    if n < m {
        lemma_replay_stays_stopped(source, init, n, (m - 1) as nat);
    }
}

/// Return the amount of the first record matching Transaction ID `tx` that
/// carries one, if any.
fn lookup_record(source: &Vec<Record>, tx: u32) -> (r: Option<Amount>)
    ensures
        r == first_amount(source@, tx),
{
    let mut i: usize = 0;
    while i < source.len()
        invariant
            i <= source.len(),
            lookup_from(source@, tx, 0) == lookup_from(source@, tx, i as int),
        decreases source.len() - i,
    {
        let record = &source[i];
        if record.tx == tx {
            if let Some(amount) = record.amount {
                return Some(amount);
            }
        }
        i = i + 1;
    }
    None
}

/// Process a single record.
fn process_record(
    record: &Record,
    client: &mut Client,
    disputes: &mut HashMap<u32, Amount>,
    source: &Vec<Record>,
) -> (r: Result<(), InvalidTransitionError>)
    ensures
        ({
            let (c, d, ok) = process_spec(source@, old(client)@, old(disputes)@, *record);
            &&& final(client)@ == c
            &&& final(disputes)@ == d
            &&& r is Ok <==> ok
            &&& r matches Err(e) ==> e == (InvalidTransitionError {
                from: Stage::Received,
                to: Stage::Processing,
            })
        }),
{
    let received = Transaction::<Received>::from(*record);
    match *received.kind() {
        TransactionKind::Deposit | TransactionKind::Withdrawal => {
            let processing = match Transaction::<Processing>::try_from(received) {
                Ok(t) => t,
                Err(e) => return Err(e),
            };
            processing.process(client.get_mut());
        },
        TransactionKind::Dispute => {
            let mut dispute_lookup = match Transaction::<DisputeLookup>::try_from(received) {
                Ok(t) => t,
                Err(e) => return Err(e),
            };
            if let Some(amount) = lookup_record(source, dispute_lookup.tx()) {
                if client.account().accepts(TransactionKind::Dispute, amount) {
                    disputes.insert(dispute_lookup.tx(), amount);
                }
                dispute_lookup.set_amount(Some(amount));
                let processing = match Transaction::<Processing>::try_from(dispute_lookup) {
                    Ok(t) => t,
                    Err(e) => return Err(e),
                };
                processing.process(client.get_mut());
            }
        },
        TransactionKind::Resolve => {
            let mut resolved = match Transaction::<Resolved>::try_from(received) {
                Ok(t) => t,
                Err(e) => return Err(e),
            };
            if let Some(amount) = disputes.remove(&resolved.tx()) {
                resolved.set_amount(Some(amount));
                let processing = match Transaction::<Processing>::try_from(resolved) {
                    Ok(t) => t,
                    Err(e) => return Err(e),
                };
                processing.process(client.get_mut());
            }
        },
        TransactionKind::Chargeback => {
            let mut chargeback = match Transaction::<ChargedBack>::try_from(received) {
                Ok(t) => t,
                Err(e) => return Err(e),
            };
            if let Some(amount) = disputes.remove(&chargeback.tx()) {
                chargeback.set_amount(Some(amount));
                let processing = match Transaction::<Processing>::try_from(chargeback) {
                    Ok(t) => t,
                    Err(e) => return Err(e),
                };
                processing.process(client.get_mut());
            }
        },
    }
    Ok(())
}

/// Processes all transaction records, in order.
///
/// Each record is carried through the transaction state machine. `records`
/// is also the source in which a dispute looks up the amount of the
/// transaction it disputes. The dispute cache keeps the amount of each
/// disputed transaction until a resolve or chargeback takes it.
///
/// New clients are created with zero balances as new Client IDs are
/// encountered. The run stops with an error at the first deposit or
/// withdrawal without an amount; the records before it stay applied.
pub fn run(clients: &mut HashMap<u16, Client>, records: &Vec<Record>) -> (r: Result<
    (),
    InvalidTransitionError,
>)
    ensures
        ({
            let init = LedgerView {
                clients: client_views(old(clients)@),
                disputes: Map::empty(),
            };
            let (s, ok) = replay(records@, init, records.len() as nat);
            &&& client_views(final(clients)@) == s.clients
            &&& r is Ok <==> ok
            &&& r matches Err(e) ==> e == (InvalidTransitionError {
                from: Stage::Received,
                to: Stage::Processing,
            })
        }),
{
    let ghost init = LedgerView { clients: client_views(clients@), disputes: Map::empty() };
    let mut disputes: HashMap<u32, Amount> = HashMap::new();
    let mut i: usize = 0;
    while i < records.len()
        invariant
            i <= records.len(),
            init == (LedgerView { clients: client_views(old(clients)@), disputes: Map::empty() }),
            replay(records@, init, i as nat) == (
                LedgerView { clients: client_views(clients@), disputes: disputes@ },
                true,
            ),
        decreases records.len() - i,
    {
        let record = records[i];
        let id = record.client_id();
        let ghost before = clients@;
        let mut client = match clients.remove(&id) {
            Some(c) => c,
            None => Client::new(id),
        };
        assert(client@ == client_of(client_views(before), id));
        let result = process_record(&record, &mut client, &mut disputes, records);
        clients.insert(id, client);
        assert(client_views(clients@) =~= client_views(before).insert(id, client@));
        match result {
            Ok(()) => {},
            Err(e) => {
                proof {
                    assert(records@[i as int] == record);
                    assert(replay(records@, init, (i + 1) as nat) == (
                        LedgerView { clients: client_views(clients@), disputes: disputes@ },
                        false,
                    ));
                    lemma_replay_stays_stopped(
                        records@,
                        init,
                        (i + 1) as nat,
                        records.len() as nat,
                    );
                }
                return Err(e);
            },
        }
        i = i + 1;
    }
    Ok(())
}

} // verus!
