//! Transactions provides a state machine to process records to completion.
use vstd::prelude::*;

use crate::amount::Amount;
use crate::client::Account;

verus! {

/// Transaction record.
///
/// The representation of a raw transaction record as received by the service.
#[derive(Clone, Copy, Debug, PartialEq, Eq)]
pub struct Record {
    /// Transaction Type.
    pub kind: TransactionKind,
    /// Client ID.
    pub client: u16,
    /// Transaction ID.
    pub tx: u32,
    /// Transaction amount; present for deposits and withdrawals.
    pub amount: Option<Amount>,
}

impl Record {
    /// A record of `kind` for client `client` and transaction `tx`.
    pub fn new(kind: TransactionKind, client: u16, tx: u32, amount: Option<Amount>) -> (r: Record)
        ensures
            r == (Record { kind, client, tx, amount }),
    {
        Record { kind, client, tx, amount }
    }

    pub fn client_id(&self) -> (r: u16)
        ensures
            r == self.client,
    {
        self.client
    }

    pub fn tx(&self) -> (r: u32)
        ensures
            r == self.tx,
    {
        self.tx
    }

    pub fn amount(&self) -> (r: Option<Amount>)
        ensures
            r == self.amount,
    {
        self.amount
    }
}

/// Types of transactions.
#[derive(Clone, Copy, Debug, PartialEq, Eq, Structural)]
pub enum TransactionKind {
    Deposit,
    Withdrawal,
    Dispute,
    Resolve,
    Chargeback,
}

/// The stages a transaction passes through.
#[derive(Clone, Copy, Debug, PartialEq, Eq, Structural)]
pub enum Stage {
    Received,
    DisputeLookup,
    Resolved,
    ChargedBack,
    Processing,
    Completed,
}

/// A single transaction.
///
/// Implements a state machine for transactions: the type parameter is the
/// stage the transaction has reached, and only the legal transitions between
/// stages exist.
#[derive(Debug)]
pub struct Transaction<S> {
    state: S,
}

impl<S> Transaction<S> {
    /// The data the transaction carries at its current stage.
    pub closed spec fn state(&self) -> S {
        self.state
    }
}

impl Transaction<Received> {
    pub fn kind(&self) -> (r: &TransactionKind)
        ensures
            *r == self.state().kind,
    {
        &self.state.kind
    }
}

impl Transaction<Processing> {
    fn new(kind: TransactionKind, amount: Amount) -> (r: Self)
        ensures
            r.state() == (Processing { kind, amount }),
    {
        Transaction { state: Processing::new(kind, amount) }
    }

    /// Applies the transaction's operation to `account`.
    pub fn process(self, account: &mut Account) -> (r: Transaction<Completed>)
        ensures
            final(account)@ == old(account)@.apply(self.state().kind, self.state().amount@),
    {
        match self.state.kind {
            TransactionKind::Deposit => account.deposit(self.state.amount),
            TransactionKind::Withdrawal => account.withdraw(self.state.amount),
            TransactionKind::Dispute => account.dispute(self.state.amount),
            TransactionKind::Resolve => account.resolve(self.state.amount),
            TransactionKind::Chargeback => account.chargeback(self.state.amount),
        }
        Transaction::<Completed>::new()
    }
}

impl Transaction<Completed> {
    fn new() -> Self {
        Transaction { state: Completed }
    }
}

impl Transaction<DisputeLookup> {
    fn new(tx: u32) -> (r: Self)
        ensures
            r.state() == (DisputeLookup { tx, amount: None }),
    {
        Transaction { state: DisputeLookup::new(tx) }
    }

    pub fn tx(&self) -> (r: u32)
        ensures
            r == self.state().tx,
    {
        self.state.tx
    }

    pub fn set_amount(&mut self, amount: Option<Amount>)
        ensures
            final(self).state() == (DisputeLookup { tx: old(self).state().tx, amount }),
    {
        self.state.amount = amount;
    }
}

impl Transaction<Resolved> {
    fn new(tx: u32) -> (r: Self)
        ensures
            r.state() == (Resolved { tx, amount: None }),
    {
        Transaction { state: Resolved::new(tx) }
    }

    pub fn tx(&self) -> (r: u32)
        ensures
            r == self.state().tx,
    {
        self.state.tx
    }

    pub fn set_amount(&mut self, amount: Option<Amount>)
        ensures
            final(self).state() == (Resolved { tx: old(self).state().tx, amount }),
    {
        self.state.amount = amount;
    }
}

impl Transaction<ChargedBack> {
    fn new(tx: u32) -> (r: Self)
        ensures
            r.state() == (ChargedBack { tx, amount: None }),
    {
        Transaction { state: ChargedBack::new(tx) }
    }

    pub fn tx(&self) -> (r: u32)
        ensures
            r == self.state().tx,
    {
        self.state.tx
    }

    pub fn set_amount(&mut self, amount: Option<Amount>)
        ensures
            final(self).state() == (ChargedBack { tx: old(self).state().tx, amount }),
    {
        self.state.amount = amount;
    }
}

/// Transaction always starts in this state.
#[derive(Clone, Copy, Debug)]
pub struct Received {
    pub id: u32,
    pub kind: TransactionKind,
    pub amount: Option<Amount>,
}

/// Applies transaction to account.
#[derive(Clone, Copy, Debug)]
pub struct Processing {
    pub kind: TransactionKind,
    pub amount: Amount,
}

impl Processing {
    fn new(kind: TransactionKind, amount: Amount) -> (r: Self)
        ensures
            r == (Processing { kind, amount }),
    {
        Processing { kind, amount }
    }
}

/// Result of successfully processing a transaction.
#[derive(Clone, Copy, Debug)]
pub struct Completed;

/// Disputed transaction needs to be looked up for amount of funds to hold.
#[derive(Clone, Copy, Debug)]
pub struct DisputeLookup {
    pub tx: u32,
    pub amount: Option<Amount>,
}

impl DisputeLookup {
    fn new(tx: u32) -> (r: Self)
        ensures
            r == (DisputeLookup { tx, amount: None }),
    {
        DisputeLookup { tx, amount: None }
    }
}

/// Dispute is resolved, held funds are released.
#[derive(Clone, Copy, Debug)]
pub struct Resolved {
    pub tx: u32,
    pub amount: Option<Amount>,
}

impl Resolved {
    fn new(tx: u32) -> (r: Self)
        ensures
            r == (Resolved { tx, amount: None }),
    {
        Resolved { tx, amount: None }
    }
}

/// Dispute is charged back, held funds are withdrawn and their account locked.
#[derive(Clone, Copy, Debug)]
pub struct ChargedBack {
    pub tx: u32,
    pub amount: Option<Amount>,
}

impl ChargedBack {
    fn new(tx: u32) -> (r: Self)
        ensures
            r == (ChargedBack { tx, amount: None }),
    {
        ChargedBack { tx, amount: None }
    }
}

impl From<Record> for Transaction<Received> {
    fn from(record: Record) -> (r: Self)
        ensures
            r.state() == (Received { id: record.tx, kind: record.kind, amount: record.amount }),
    {
        Transaction { state: Received { id: record.tx, kind: record.kind, amount: record.amount } }
    }
}

impl vstd::std_specs::convert::FromSpecImpl<Record> for Transaction<Received> {
    open spec fn obeys_from_spec() -> bool {
        true
    }

    closed spec fn from_spec(v: Record) -> Transaction<Received> {
        Transaction { state: Received { id: v.tx, kind: v.kind, amount: v.amount } }
    }
}

/// An attempt to move a transaction from one stage to a stage it cannot reach
/// from there, or to processing without an amount.
#[derive(Clone, Copy, Debug, PartialEq, Eq, Structural)]
pub struct InvalidTransitionError {
    pub from: Stage,
    pub to: Stage,
}

impl vstd::std_specs::convert::TryFromSpecImpl<Transaction<Received>> for Transaction<Processing> {
    open spec fn obeys_try_from_spec() -> bool {
        true
    }

    closed spec fn try_from_spec(prev: Transaction<Received>) -> Result<
        Transaction<Processing>,
        InvalidTransitionError,
    > {
        match (prev.state.kind, prev.state.amount) {
            (TransactionKind::Deposit, Some(amount)) | (TransactionKind::Withdrawal, Some(amount)) => {
                Ok(Transaction { state: Processing { kind: prev.state.kind, amount } })
            },
            _ => Err(InvalidTransitionError { from: Stage::Received, to: Stage::Processing }),
        }
    }
}

impl TryFrom<Transaction<Received>> for Transaction<Processing> {
    type Error = InvalidTransitionError;

    fn try_from(prev: Transaction<Received>) -> (r: Result<Self, Self::Error>)
        ensures
            match r {
                Ok(t) => {
                    &&& (prev.state().kind == TransactionKind::Deposit || prev.state().kind
                        == TransactionKind::Withdrawal)
                    &&& prev.state().amount is Some
                    &&& t.state() == (Processing {
                        kind: prev.state().kind,
                        amount: prev.state().amount->Some_0,
                    })
                },
                Err(e) => {
                    &&& e == (InvalidTransitionError { from: Stage::Received, to: Stage::Processing })
                    &&& !((prev.state().kind == TransactionKind::Deposit || prev.state().kind
                        == TransactionKind::Withdrawal) && prev.state().amount is Some)
                },
            },
    {
        match prev.state.kind {
            TransactionKind::Deposit | TransactionKind::Withdrawal => {
                if let Some(amount) = prev.state.amount {
                    return Ok(Transaction::<Processing>::new(prev.state.kind, amount));
                }
            },
            _ => {},
        }
        Err(InvalidTransitionError { from: Stage::Received, to: Stage::Processing })
    }
}

impl vstd::std_specs::convert::TryFromSpecImpl<Transaction<Received>> for Transaction<DisputeLookup> {
    open spec fn obeys_try_from_spec() -> bool {
        true
    }

    closed spec fn try_from_spec(prev: Transaction<Received>) -> Result<
        Transaction<DisputeLookup>,
        InvalidTransitionError,
    > {
        match prev.state.kind {
            TransactionKind::Dispute => Ok(Transaction { state: DisputeLookup { tx: prev.state.id, amount: None } }),
            _ => Err(InvalidTransitionError { from: Stage::Received, to: Stage::DisputeLookup }),
        }
    }
}

impl TryFrom<Transaction<Received>> for Transaction<DisputeLookup> {
    type Error = InvalidTransitionError;

    fn try_from(prev: Transaction<Received>) -> (r: Result<Self, Self::Error>)
        ensures
            match r {
                Ok(t) => {
                    &&& prev.state().kind == TransactionKind::Dispute
                    &&& t.state() == (DisputeLookup { tx: prev.state().id, amount: None })
                },
                Err(e) => {
                    &&& e == (InvalidTransitionError { from: Stage::Received, to: Stage::DisputeLookup })
                    &&& prev.state().kind != TransactionKind::Dispute
                },
            },
    {
        match prev.state.kind {
            TransactionKind::Dispute => Ok(Transaction::<DisputeLookup>::new(prev.state.id)),
            _ => Err(InvalidTransitionError { from: Stage::Received, to: Stage::DisputeLookup }),
        }
    }
}

impl vstd::std_specs::convert::TryFromSpecImpl<Transaction<DisputeLookup>> for Transaction<Processing> {
    open spec fn obeys_try_from_spec() -> bool {
        true
    }

    closed spec fn try_from_spec(prev: Transaction<DisputeLookup>) -> Result<
        Transaction<Processing>,
        InvalidTransitionError,
    > {
        match prev.state.amount {
            Some(amount) => Ok(Transaction { state: Processing { kind: TransactionKind::Dispute, amount } }),
            None => Err(InvalidTransitionError { from: Stage::DisputeLookup, to: Stage::Processing }),
        }
    }
}

impl TryFrom<Transaction<DisputeLookup>> for Transaction<Processing> {
    type Error = InvalidTransitionError;

    fn try_from(prev: Transaction<DisputeLookup>) -> (r: Result<Self, Self::Error>)
        ensures
            match r {
                Ok(t) => {
                    &&& prev.state().amount is Some
                    &&& t.state() == (Processing {
                        kind: TransactionKind::Dispute,
                        amount: prev.state().amount->Some_0,
                    })
                },
                Err(e) => {
                    &&& e == (InvalidTransitionError { from: Stage::DisputeLookup, to: Stage::Processing })
                    &&& prev.state().amount is None
                },
            },
    {
        if let Some(amount) = prev.state.amount {
            return Ok(Transaction::<Processing>::new(TransactionKind::Dispute, amount));
        }
        Err(InvalidTransitionError { from: Stage::DisputeLookup, to: Stage::Processing })
    }
}

impl vstd::std_specs::convert::TryFromSpecImpl<Transaction<Received>> for Transaction<Resolved> {
    open spec fn obeys_try_from_spec() -> bool {
        true
    }

    closed spec fn try_from_spec(prev: Transaction<Received>) -> Result<
        Transaction<Resolved>,
        InvalidTransitionError,
    > {
        match prev.state.kind {
            TransactionKind::Resolve => Ok(Transaction { state: Resolved { tx: prev.state.id, amount: None } }),
            _ => Err(InvalidTransitionError { from: Stage::Received, to: Stage::Resolved }),
        }
    }
}

impl TryFrom<Transaction<Received>> for Transaction<Resolved> {
    type Error = InvalidTransitionError;

    fn try_from(prev: Transaction<Received>) -> (r: Result<Self, Self::Error>)
        ensures
            match r {
                Ok(t) => {
                    &&& prev.state().kind == TransactionKind::Resolve
                    &&& t.state() == (Resolved { tx: prev.state().id, amount: None })
                },
                Err(e) => {
                    &&& e == (InvalidTransitionError { from: Stage::Received, to: Stage::Resolved })
                    &&& prev.state().kind != TransactionKind::Resolve
                },
            },
    {
        match prev.state.kind {
            TransactionKind::Resolve => Ok(Transaction::<Resolved>::new(prev.state.id)),
            _ => Err(InvalidTransitionError { from: Stage::Received, to: Stage::Resolved }),
        }
    }
}

impl vstd::std_specs::convert::TryFromSpecImpl<Transaction<Resolved>> for Transaction<Processing> {
    open spec fn obeys_try_from_spec() -> bool {
        true
    }

    closed spec fn try_from_spec(prev: Transaction<Resolved>) -> Result<
        Transaction<Processing>,
        InvalidTransitionError,
    > {
        match prev.state.amount {
            Some(amount) => Ok(Transaction { state: Processing { kind: TransactionKind::Resolve, amount } }),
            None => Err(InvalidTransitionError { from: Stage::Resolved, to: Stage::Processing }),
        }
    }
}

impl TryFrom<Transaction<Resolved>> for Transaction<Processing> {
    type Error = InvalidTransitionError;

    fn try_from(prev: Transaction<Resolved>) -> (r: Result<Self, Self::Error>)
        ensures
            match r {
                Ok(t) => {
                    &&& prev.state().amount is Some
                    &&& t.state() == (Processing {
                        kind: TransactionKind::Resolve,
                        amount: prev.state().amount->Some_0,
                    })
                },
                Err(e) => {
                    &&& e == (InvalidTransitionError { from: Stage::Resolved, to: Stage::Processing })
                    &&& prev.state().amount is None
                },
            },
    {
        if let Some(amount) = prev.state.amount {
            return Ok(Transaction::<Processing>::new(TransactionKind::Resolve, amount));
        }
        Err(InvalidTransitionError { from: Stage::Resolved, to: Stage::Processing })
    }
}

impl vstd::std_specs::convert::TryFromSpecImpl<Transaction<Received>> for Transaction<ChargedBack> {
    open spec fn obeys_try_from_spec() -> bool {
        true
    }

    closed spec fn try_from_spec(prev: Transaction<Received>) -> Result<
        Transaction<ChargedBack>,
        InvalidTransitionError,
    > {
        match prev.state.kind {
            TransactionKind::Chargeback => Ok(Transaction { state: ChargedBack { tx: prev.state.id, amount: None } }),
            _ => Err(InvalidTransitionError { from: Stage::Received, to: Stage::ChargedBack }),
        }
    }
}

impl TryFrom<Transaction<Received>> for Transaction<ChargedBack> {
    type Error = InvalidTransitionError;

    fn try_from(prev: Transaction<Received>) -> (r: Result<Self, Self::Error>)
        ensures
            match r {
                Ok(t) => {
                    &&& prev.state().kind == TransactionKind::Chargeback
                    &&& t.state() == (ChargedBack { tx: prev.state().id, amount: None })
                },
                Err(e) => {
                    &&& e == (InvalidTransitionError { from: Stage::Received, to: Stage::ChargedBack })
                    &&& prev.state().kind != TransactionKind::Chargeback
                },
            },
    {
        match prev.state.kind {
            TransactionKind::Chargeback => Ok(Transaction::<ChargedBack>::new(prev.state.id)),
            _ => Err(InvalidTransitionError { from: Stage::Received, to: Stage::ChargedBack }),
        }
    }
}

impl vstd::std_specs::convert::TryFromSpecImpl<Transaction<ChargedBack>> for Transaction<Processing> {
    open spec fn obeys_try_from_spec() -> bool {
        true
    }

    closed spec fn try_from_spec(prev: Transaction<ChargedBack>) -> Result<
        Transaction<Processing>,
        InvalidTransitionError,
    > {
        match prev.state.amount {
            Some(amount) => Ok(Transaction { state: Processing { kind: TransactionKind::Chargeback, amount } }),
            None => Err(InvalidTransitionError { from: Stage::ChargedBack, to: Stage::Processing }),
        }
    }
}

impl TryFrom<Transaction<ChargedBack>> for Transaction<Processing> {
    type Error = InvalidTransitionError;

    fn try_from(prev: Transaction<ChargedBack>) -> (r: Result<Self, Self::Error>)
        ensures
            match r {
                Ok(t) => {
                    &&& prev.state().amount is Some
                    &&& t.state() == (Processing {
                        kind: TransactionKind::Chargeback,
                        amount: prev.state().amount->Some_0,
                    })
                },
                Err(e) => {
                    &&& e == (InvalidTransitionError { from: Stage::ChargedBack, to: Stage::Processing })
                    &&& prev.state().amount is None
                },
            },
    {
        if let Some(amount) = prev.state.amount {
            return Ok(Transaction::<Processing>::new(TransactionKind::Chargeback, amount));
        }
        Err(InvalidTransitionError { from: Stage::ChargedBack, to: Stage::Processing })
    }
}

} // verus!
