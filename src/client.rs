//! Client account management.
//!
//! A `Client` pairs a client ID with its `Account`. An account is `Open` or
//! `Frozen`, and holds a `Balance` of available, held and total funds.
use vstd::prelude::*;

use crate::amount::{fits, lemma_amount_fits, Amount, SCALE};
use crate::transaction::TransactionKind;

verus! {

broadcast use lemma_amount_fits;

/// Available, held and total funds, as whole numbers of ten-thousandths.
pub struct BalanceView {
    pub available: int,
    pub held: int,
    pub total: int,
}

impl BalanceView {
    /// All funds zero.
    pub open spec fn zero() -> BalanceView {
        BalanceView { available: 0, held: 0, total: 0 }
    }

    /// Total funds are the sum of available and held funds.
    pub open spec fn wf(self) -> bool {
        self.total == self.available + self.held
    }

    /// How an operation of `kind` on `amount` moves available and held funds.
    pub open spec fn deltas(kind: TransactionKind, amount: int) -> (int, int) {
        match kind {
            TransactionKind::Deposit => (amount, 0),
            TransactionKind::Withdrawal => (-amount, 0),
            TransactionKind::Dispute => (-amount, amount),
            TransactionKind::Resolve => (amount, -amount),
            TransactionKind::Chargeback => (0, -amount),
        }
    }

    /// The balance with available and held funds moved by the given deltas,
    /// and total funds by their sum.
    pub open spec fn shift(self, d_available: int, d_held: int) -> BalanceView {
        BalanceView {
            available: self.available + d_available,
            held: self.held + d_held,
            total: self.total + d_available + d_held,
        }
    }

    /// Whether the operation of `kind` on `amount` takes effect: the amount is
    /// positive, a withdrawal leaves funds available, and each new figure can
    /// be held.
    pub open spec fn permits(self, kind: TransactionKind, amount: int) -> bool {
        let (da, dh) = BalanceView::deltas(kind, amount);
        let next = self.shift(da, dh);
        &&& amount > 0
        &&& (kind == TransactionKind::Withdrawal ==> self.available > amount)
        &&& fits(next.available)
        &&& fits(next.held)
        &&& fits(next.total)
    }

    /// The balance after the operation of `kind` on `amount`; unchanged where
    /// the operation does not take effect.
    pub open spec fn after(self, kind: TransactionKind, amount: int) -> BalanceView {
        if self.permits(kind, amount) {
            let (da, dh) = BalanceView::deltas(kind, amount);
            self.shift(da, dh)
        } else {
            self
        }
    }
}

/// An account: its balance, and whether it is locked.
pub struct AccountView {
    pub balance: BalanceView,
    pub locked: bool,
}

impl AccountView {
    /// An open account with zero balance.
    pub open spec fn new() -> AccountView {
        AccountView { balance: BalanceView::zero(), locked: false }
    }

    /// Whether the operation of `kind` on `amount` changes the account: it is
    /// open and the balance permits the operation.
    pub open spec fn accepts(self, kind: TransactionKind, amount: int) -> bool {
        !self.locked && self.balance.permits(kind, amount)
    }

    /// The account after the operation of `kind` on `amount`. A chargeback
    /// that takes effect locks the account; any operation that does not take
    /// effect leaves it as it was.
    pub open spec fn apply(self, kind: TransactionKind, amount: int) -> AccountView {
        if self.accepts(kind, amount) {
            AccountView {
                balance: self.balance.after(kind, amount),
                locked: kind == TransactionKind::Chargeback,
            }
        } else {
            self
        }
    }
}

/// A client: its ID and account.
pub struct ClientView {
    pub id: u16,
    pub account: AccountView,
}

impl ClientView {
    /// A new client with an open account and zero balance.
    pub open spec fn new(id: u16) -> ClientView {
        ClientView { id, account: AccountView::new() }
    }
}

/// The account after each operation of `ops` in turn.
pub open spec fn apply_all(account: AccountView, ops: Seq<(TransactionKind, int)>) -> AccountView
    decreases ops.len(),
{
    if ops.len() == 0 {
        account
    } else {
        apply_all(account, ops.drop_last()).apply(ops.last().0, ops.last().1)
    }
}

/// Every operation keeps total funds equal to available plus held funds.
pub proof fn lemma_apply_keeps_total_sum(account: AccountView, kind: TransactionKind, amount: int)
    requires
        account.balance.wf(),
    ensures
        account.apply(kind, amount).balance.wf(),
{
}

/// Once an account is frozen, no sequence of operations changes it.
pub proof fn lemma_frozen_account_is_fixed(account: AccountView, ops: Seq<(TransactionKind, int)>)
    requires
        account.locked,
    ensures
        apply_all(account, ops) == account,
    decreases ops.len(),
{
    if ops.len() > 0 {
        lemma_frozen_account_is_fixed(account, ops.drop_last());
    }
}

/// An operation on an amount that is not positive changes nothing.
pub proof fn lemma_non_positive_amount_is_noop(
    account: AccountView,
    kind: TransactionKind,
    amount: int,
)
    requires
        amount <= 0,
    ensures
        account.apply(kind, amount) == account,
{
}

/// A withdrawal of at least the available funds changes nothing.
pub proof fn lemma_withdrawal_beyond_available_is_noop(account: AccountView, amount: int)
    requires
        amount >= account.balance.available,
    ensures
        account.apply(TransactionKind::Withdrawal, amount) == account,
{
}

/// A client represented by a Client ID and the associated account.
#[derive(Debug, PartialEq, Eq)]
pub struct Client {
    id: u16,
    account: Account,
}

impl View for Client {
    type V = ClientView;

    closed spec fn view(&self) -> ClientView {
        ClientView { id: self.id, account: self.account@ }
    }
}

impl Client {
    /// Create a new `Client` with `id` and `0` balance.
    pub fn new(id: u16) -> (r: Client)
        ensures
            r@ == ClientView::new(id),
    {
        Client { id, account: Account::new() }
    }

    /// Returns the Client ID.
    pub fn id(&self) -> (r: u16)
        ensures
            r == self@.id,
    {
        self.id
    }

    /// Returns the `Client`s `Account`.
    pub fn account(&self) -> (r: &Account)
        ensures
            r@ == self@.account,
    {
        &self.account
    }

    /// Returns a mutable reference to the `Client`s `Account`.
    pub fn get_mut(&mut self) -> (r: &mut Account)
        ensures
            r@ == old(self)@.account,
            final(self)@ == (ClientView { id: old(self)@.id, account: final(r)@ }),
    {
        &mut self.account
    }
}

/// Clients are ordered by their IDs.
impl PartialOrd for Client {
    fn partial_cmp(&self, other: &Client) -> (r: Option<core::cmp::Ordering>) {
        if self.id < other.id {
            Some(core::cmp::Ordering::Less)
        } else if self.id > other.id {
            Some(core::cmp::Ordering::Greater)
        } else {
            Some(core::cmp::Ordering::Equal)
        }
    }
}

impl vstd::std_specs::cmp::PartialOrdSpecImpl for Client {
    open spec fn obeys_partial_cmp_spec() -> bool {
        true
    }

    open spec fn partial_cmp_spec(&self, other: &Client) -> Option<core::cmp::Ordering> {
        if self@.id < other@.id {
            Some(core::cmp::Ordering::Less)
        } else if self@.id > other@.id {
            Some(core::cmp::Ordering::Greater)
        } else {
            Some(core::cmp::Ordering::Equal)
        }
    }
}

/// Client account.
///
/// Accounts have two states, `Open` and `Frozen`. An open account takes every
/// operation whose amount is positive and which its balance permits; a frozen
/// account takes none. An operation that is not taken, including one whose
/// resulting funds could not be held, changes nothing.
#[derive(Debug, PartialEq, Eq)]
pub struct Account {
    inner: AccountInner,
}

impl View for Account {
    type V = AccountView;

    closed spec fn view(&self) -> AccountView {
        self.inner@
    }
}

impl Account {
    fn new() -> (r: Account)
        ensures
            r@ == AccountView::new(),
    {
        Account { inner: AccountInner::new() }
    }

    /// The account's current balance, whose total funds are the sum of its
    /// available and held funds.
    pub fn balance(&self) -> (r: Balance)
        ensures
            r@ == self@.balance,
            r@.wf(),
    {
        let balance = match self.inner {
            AccountInner::Open { balance } => balance,
            AccountInner::Frozen { balance } => balance,
        };
        proof {
            use_type_invariant(&balance);
        }
        balance
    }

    /// Whether the account is frozen.
    pub fn is_locked(&self) -> (r: bool)
        ensures
            r == self@.locked,
    {
        match self.inner {
            AccountInner::Open { .. } => false,
            AccountInner::Frozen { .. } => true,
        }
    }

    /// Whether the operation of `kind` on `amount` would change the account.
    pub fn accepts(&self, kind: TransactionKind, amount: Amount) -> (r: bool)
        ensures
            r == self@.accepts(kind, amount@),
    {
        match self.inner {
            AccountInner::Open { balance } => {
                let mut trial = balance;
                trial.apply(kind, amount)
            },
            AccountInner::Frozen { .. } => false,
        }
    }

    /// Applies the operation of `kind` on `amount` to an open account; a
    /// chargeback that takes effect freezes it.
    fn update(&mut self, kind: TransactionKind, amount: Amount)
        ensures
            final(self)@ == old(self)@.apply(kind, amount@),
    {
        match self.inner {
            AccountInner::Open { balance } => {
                let mut next = balance;
                if next.apply(kind, amount) {
                    match kind {
                        TransactionKind::Chargeback => {
                            self.inner = AccountInner::Frozen { balance: next };
                        },
                        _ => {
                            self.inner = AccountInner::Open { balance: next };
                        },
                    }
                }
            },
            AccountInner::Frozen { .. } => {},
        }
    }

    /// Increase the available and total funds of the client account by amount.
    ///
    /// Has no effect when the account is locked or amount is not positive.
    pub fn deposit(&mut self, amount: Amount)
        ensures
            final(self)@ == old(self)@.apply(TransactionKind::Deposit, amount@),
    {
        self.update(TransactionKind::Deposit, amount);
    }

    /// Decrease the available and total funds of the client account by amount.
    ///
    /// Has no effect when the account is locked, the amount is not positive,
    /// or the available funds do not exceed it.
    pub fn withdraw(&mut self, amount: Amount)
        ensures
            final(self)@ == old(self)@.apply(TransactionKind::Withdrawal, amount@),
    {
        self.update(TransactionKind::Withdrawal, amount);
    }

    /// Associated funds moved to held.
    ///
    /// Available funds decreased by amount, held funds increased by amount,
    /// total funds remain the same. Available funds may become negative. Has
    /// no effect when the account is locked or amount is not positive.
    pub fn dispute(&mut self, amount: Amount)
        ensures
            final(self)@ == old(self)@.apply(TransactionKind::Dispute, amount@),
    {
        self.update(TransactionKind::Dispute, amount);
    }

    /// Resolution to a dispute, releases held funds.
    ///
    /// Held funds decreased by amount, available funds increased by amount,
    /// total funds remain the same. Has no effect when the account is locked
    /// or amount is not positive.
    pub fn resolve(&mut self, amount: Amount)
        ensures
            final(self)@ == old(self)@.apply(TransactionKind::Resolve, amount@),
    {
        self.update(TransactionKind::Resolve, amount);
    }

    /// Final state of a dispute and represents the client reversing a transaction.
    ///
    /// Held funds and total funds are decreased by amount, and the account is
    /// frozen. Has no effect when the account is locked or amount is not
    /// positive.
    pub fn chargeback(&mut self, amount: Amount)
        ensures
            final(self)@ == old(self)@.apply(TransactionKind::Chargeback, amount@),
    {
        self.update(TransactionKind::Chargeback, amount);
    }
}

/// Client account representation.
///
/// Accounts only have two states `Open` where transactions are permitted and
/// `Frozen` where all transactions are prohibited.
#[derive(Clone, Copy, Debug, PartialEq, Eq)]
pub enum AccountInner {
    Open { balance: Balance },
    Frozen { balance: Balance },
}

impl View for AccountInner {
    type V = AccountView;

    open spec fn view(&self) -> AccountView {
        match self {
            AccountInner::Open { balance } => AccountView { balance: balance@, locked: false },
            AccountInner::Frozen { balance } => AccountView { balance: balance@, locked: true },
        }
    }
}

impl AccountInner {
    /// An open account with zero balance.
    pub fn new() -> (r: AccountInner)
        ensures
            r@ == AccountView::new(),
    {
        AccountInner::Open { balance: Balance::new() }
    }
}

/// Client account balance.
///
/// Total funds are always the sum of available and held funds.
#[derive(Clone, Copy, Debug, PartialEq, Eq)]
pub struct Balance {
    available: Amount,
    held: Amount,
    total: Amount,
}

impl View for Balance {
    type V = BalanceView;

    closed spec fn view(&self) -> BalanceView {
        BalanceView { available: self.available@, held: self.held@, total: self.total@ }
    }
}

impl Balance {
    #[verifier::type_invariant]
    spec fn total_is_sum(&self) -> bool {
        self@.wf()
    }

    /// A balance with all funds zero.
    pub fn new() -> (r: Balance)
        ensures
            r@ == BalanceView::zero(),
    {
        Balance {
            available: Amount::new(0, SCALE),
            held: Amount::new(0, SCALE),
            total: Amount::new(0, SCALE),
        }
    }

    /// Available funds.
    pub fn available(&self) -> (r: Amount)
        ensures
            r@ == self@.available,
    {
        self.available
    }

    /// Held funds.
    pub fn held(&self) -> (r: Amount)
        ensures
            r@ == self@.held,
    {
        self.held
    }

    /// Total funds.
    pub fn total(&self) -> (r: Amount)
        ensures
            r@ == self@.total,
    {
        self.total
    }

    /// Moves the funds as an operation of `kind` on `amount` does, where every
    /// new figure can be held; reports whether it did.
    fn shift(&mut self, kind: TransactionKind, amount: Amount) -> (moved: bool)
        ensures
            ({
                let (da, dh) = BalanceView::deltas(kind, amount@);
                let next = old(self)@.shift(da, dh);
                &&& moved == (fits(next.available) && fits(next.held) && fits(next.total))
                &&& final(self)@ == if moved { next } else { old(self)@ }
            }),
    {
        proof {
            use_type_invariant(&*self);
        }
        let (available, held, total) = match kind {
            TransactionKind::Deposit => (
                self.available.checked_add(&amount),
                Some(self.held),
                self.total.checked_add(&amount),
            ),
            TransactionKind::Withdrawal => (
                self.available.checked_sub(&amount),
                Some(self.held),
                self.total.checked_sub(&amount),
            ),
            TransactionKind::Dispute => (
                self.available.checked_sub(&amount),
                self.held.checked_add(&amount),
                Some(self.total),
            ),
            TransactionKind::Resolve => (
                self.available.checked_add(&amount),
                self.held.checked_sub(&amount),
                Some(self.total),
            ),
            TransactionKind::Chargeback => (
                Some(self.available),
                self.held.checked_sub(&amount),
                self.total.checked_sub(&amount),
            ),
        };
        match (available, held, total) {
            (Some(available), Some(held), Some(total)) => {
                *self = Balance { available, held, total };
                true
            },
            _ => false,
        }
    }

    /// Applies the operation of `kind` on `amount` where the balance permits
    /// it; reports whether it did.
    fn apply(&mut self, kind: TransactionKind, amount: Amount) -> (applied: bool)
        ensures
            applied == old(self)@.permits(kind, amount@),
            final(self)@ == old(self)@.after(kind, amount@),
    {
        match kind {
            TransactionKind::Deposit => self.deposit(amount),
            TransactionKind::Withdrawal => self.withdraw(amount),
            TransactionKind::Dispute => self.dispute(amount),
            TransactionKind::Resolve => self.resolve(amount),
            TransactionKind::Chargeback => self.chargeback(amount),
        }
    }

    /// The balance's part of a deposit; reports whether it was taken.
    fn deposit(&mut self, amount: Amount) -> (applied: bool)
        ensures
            applied == old(self)@.permits(TransactionKind::Deposit, amount@),
            final(self)@ == old(self)@.after(TransactionKind::Deposit, amount@),
    {
        amount.is_positive() && self.shift(TransactionKind::Deposit, amount)
    }

    /// The balance's part of a withdrawal; reports whether it was taken.
    fn withdraw(&mut self, amount: Amount) -> (applied: bool)
        ensures
            applied == old(self)@.permits(TransactionKind::Withdrawal, amount@),
            final(self)@ == old(self)@.after(TransactionKind::Withdrawal, amount@),
    {
        self.available.exceeds(&amount) && amount.is_positive() && self.shift(
            TransactionKind::Withdrawal,
            amount,
        )
    }

    /// The balance's part of a dispute; reports whether it was taken.
    fn dispute(&mut self, amount: Amount) -> (applied: bool)
        ensures
            applied == old(self)@.permits(TransactionKind::Dispute, amount@),
            final(self)@ == old(self)@.after(TransactionKind::Dispute, amount@),
    {
        amount.is_positive() && self.shift(TransactionKind::Dispute, amount)
    }

    /// The balance's part of a resolve; reports whether it was taken.
    fn resolve(&mut self, amount: Amount) -> (applied: bool)
        ensures
            applied == old(self)@.permits(TransactionKind::Resolve, amount@),
            final(self)@ == old(self)@.after(TransactionKind::Resolve, amount@),
    {
        amount.is_positive() && self.shift(TransactionKind::Resolve, amount)
    }

    /// The balance's part of a chargeback; reports whether it was taken.
    fn chargeback(&mut self, amount: Amount) -> (applied: bool)
        ensures
            applied == old(self)@.permits(TransactionKind::Chargeback, amount@),
            final(self)@ == old(self)@.after(TransactionKind::Chargeback, amount@),
    {
        amount.is_positive() && self.shift(TransactionKind::Chargeback, amount)
    }
}

} // verus!
