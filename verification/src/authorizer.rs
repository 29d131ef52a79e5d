//! An account log that authorizes card transactions against a limit.
//!
//! The log starts empty. The first record must open the account; every
//! transaction after that is checked against the entry logged last and,
//! where it is accepted, logged with the limit that is left.

use vstd::prelude::*;

verus! {

/// The time of the transaction that stands beside an opened account:
/// midnight of the first day of the year 1, UTC, in nanoseconds since the
/// Unix epoch.
pub const NO_TIME: i128 = -62_135_596_800_000_000_000;

/// The state of an account.
#[derive(Debug, PartialEq, Eq, Clone, Copy, Structural)]
pub struct Account {
    pub active_card: bool,
    pub available_limit: u32,
}

/// One card transaction.
#[derive(Debug, PartialEq, Eq)]
pub struct Transaction {
    pub merchant: String,
    pub amount: u32,
    /// When it happened: nanoseconds since the Unix epoch, UTC.
    pub time: i128,
}

/// A transaction as mathematics.
pub struct TransactionView {
    pub merchant: Seq<char>,
    pub amount: u32,
    pub time: i128,
}

impl View for Transaction {
    type V = TransactionView;

    open spec fn view(&self) -> TransactionView {
        TransactionView { merchant: self.merchant@, amount: self.amount, time: self.time }
    }
}

impl Transaction {
    /// Whether the two transactions agree in merchant, amount and time.
    pub fn same_as(&self, other: &Transaction) -> (same: bool)
        ensures
            same == (self@ == other@),
    {
        self.merchant == other.merchant && self.amount == other.amount && self.time == other.time
    }
}

/// What is handed to the log: an account to open, or a transaction.
#[derive(Debug)]
pub enum Record {
    Account(Account),
    Transaction(Transaction),
}

/// A record as mathematics.
pub enum RecordView {
    Account(Account),
    Transaction(TransactionView),
}

impl View for Record {
    type V = RecordView;

    open spec fn view(&self) -> RecordView {
        match self {
            Record::Account(account) => RecordView::Account(*account),
            Record::Transaction(tx) => RecordView::Transaction(tx@),
        }
    }
}

/// One line of the log: the account as a transaction left it.
#[derive(Debug, PartialEq, Eq)]
pub struct DoubleEntry {
    account: Account,
    tx: Transaction,
}

/// A line of the log as mathematics.
pub struct DoubleEntryView {
    pub account: Account,
    pub tx: TransactionView,
}

impl View for DoubleEntry {
    type V = DoubleEntryView;

    closed spec fn view(&self) -> DoubleEntryView {
        DoubleEntryView { account: self.account, tx: self.tx@ }
    }
}

impl DoubleEntry {
    /// The line that opens the log: the account, beside a transaction of
    /// nothing at no merchant.
    fn new(acc: Account) -> (entry: Self)
        ensures
            entry@ == opening(acc),
    {
        DoubleEntry { account: acc, tx: Transaction { merchant: String::new(), amount: 0, time: NO_TIME } }
    }
}

/// The line that opens a log with `account`.
pub open spec fn opening(account: Account) -> DoubleEntryView {
    DoubleEntryView {
        account,
        tx: TransactionView { merchant: Seq::<char>::empty(), amount: 0, time: NO_TIME },
    }
}

#[derive(Debug, PartialEq, Eq)]
enum State {
    Inactive,
    Active,
}

/// Why a record was refused.
#[derive(Debug, Clone, Copy, PartialEq, Eq, Structural)]
pub enum AccountError {
    NotInitialized,
    InsufficientLimit,
    AlreadyInitialized,
    CardNotActive,
    DoubleTransaction,
}

impl AccountError {
    /// The text that stands for each refusal.
    pub open spec fn spec_code(self) -> Seq<char> {
        match self {
            AccountError::NotInitialized => "account-not-initialized"@,
            AccountError::InsufficientLimit => "insufficient-limit"@,
            AccountError::AlreadyInitialized => "account-not-initialized"@,
            AccountError::CardNotActive => "card-not-active"@,
            AccountError::DoubleTransaction => "doubled-transaction"@,
        }
    }

    /// The refusal as text, as it is shown to a user.
    pub fn code(&self) -> (text: String)
        ensures
            text@ == self.spec_code(),
    {
        match self {
            AccountError::NotInitialized => "account-not-initialized".to_string(),
            AccountError::InsufficientLimit => "insufficient-limit".to_string(),
            AccountError::AlreadyInitialized => "account-not-initialized".to_string(),
            AccountError::CardNotActive => "card-not-active".to_string(),
            AccountError::DoubleTransaction => "doubled-transaction".to_string(),
        }
    }
}

/// An account log as mathematics.
pub struct LogView {
    /// The lines, the oldest first.
    pub lines: Seq<DoubleEntryView>,
    /// Whether the account was opened with an active card.
    pub active: bool,
}

impl LogView {
    /// What the log answers to `record`: the account as the record leaves
    /// it, or why the record is refused.
    pub open spec fn answer(self, record: RecordView) -> Result<Account, AccountError> {
        match record {
            RecordView::Account(account) => if self.active || self.lines.len() > 0 {
                Err(AccountError::AlreadyInitialized)
            } else {
                Ok(account)
            },
            RecordView::Transaction(tx) => if !self.active {
                if self.lines.len() == 0 {
                    Err(AccountError::NotInitialized)
                } else {
                    Err(AccountError::CardNotActive)
                }
            } else if self.lines.last().tx == tx {
                Err(AccountError::DoubleTransaction)
            } else if self.lines.last().account.available_limit < tx.amount {
                Err(AccountError::InsufficientLimit)
            } else {
                Ok(
                    Account {
                        active_card: self.lines.last().account.active_card,
                        available_limit: (self.lines.last().account.available_limit - tx.amount) as u32,
                    },
                )
            },
        }
    }

    /// The log after `record`: as it was where the record is refused, and
    /// with one more line where it is accepted.
    pub open spec fn after(self, record: RecordView) -> LogView {
        match (self.answer(record), record) {
            (Ok(account), RecordView::Account(_)) => LogView {
                lines: self.lines.push(opening(account)),
                active: account.active_card,
            },
            (Ok(account), RecordView::Transaction(tx)) => LogView {
                lines: self.lines.push(DoubleEntryView { account, tx }),
                active: self.active,
            },
            (Err(_), _) => self,
        }
    }
}

/// The log of one account.
#[derive(Debug, PartialEq, Eq)]
pub struct AccountLog {
    log: Vec<DoubleEntry>,
    state: State,
}

impl View for AccountLog {
    type V = LogView;

    closed spec fn view(&self) -> LogView {
        LogView { lines: Seq::new(self.log@.len(), |i: int| self.log@[i]@), active: self.state is Active }
    }
}

impl AccountLog {
    /// The log's validity: an active log has a line.
    pub closed spec fn wf(&self) -> bool {
        self.state is Active ==> self.log@.len() > 0
    }

    /// The empty log of an account that is not opened yet.
    pub fn new() -> (log: Self)
        ensures
            log.wf(),
            log@.lines == Seq::<DoubleEntryView>::empty(),
            !log@.active,
    {
        let log = AccountLog { state: State::Inactive, log: Vec::new() };
        assert(log@.lines =~= Seq::<DoubleEntryView>::empty());
        log
    }

    /// Takes one record. An account opens the log, once. A transaction is
    /// refused before the account is opened, on an inactive card, where it
    /// repeats the transaction logged last, and where it is over the limit
    /// that is left, in this order; otherwise it is logged, and the limit
    /// falls by its amount.
    pub fn process(&mut self, record: Record) -> (answer: Result<Account, AccountError>)
        requires
            old(self).wf(),
        ensures
            final(self).wf(),
            answer == old(self)@.answer(record@),
            final(self)@ == old(self)@.after(record@),
    {
        let ghost before = self@;
        match record {
            Record::Account(acc) => {
                match self.state {
                    State::Inactive => {
                        if self.log.len() > 0 {
                            return Err(AccountError::AlreadyInitialized);
                        }
                        self.log.push(DoubleEntry::new(acc));
                        if acc.active_card {
                            self.state = State::Active;
                        }
                        assert(self@.lines =~= before.lines.push(opening(acc)));
                        Ok(acc)
                    },
                    State::Active => Err(AccountError::AlreadyInitialized),
                }
            },
            Record::Transaction(tx) => {
                match self.state {
                    State::Inactive => {
                        if self.log.len() == 0 {
                            Err(AccountError::NotInitialized)
                        } else {
                            Err(AccountError::CardNotActive)
                        }
                    },
                    State::Active => {
                        let last_entry = &self.log[self.log.len() - 1];
                        assert(last_entry@ == before.lines.last());
                        if last_entry.tx.same_as(&tx) {
                            return Err(AccountError::DoubleTransaction);
                        }
                        if last_entry.account.available_limit < tx.amount {
                            return Err(AccountError::InsufficientLimit);
                        }
                        let new_account_entry = Account {
                            available_limit: last_entry.account.available_limit - tx.amount,
                            active_card: last_entry.account.active_card,
                        };
                        let ghost line = DoubleEntryView { account: new_account_entry, tx: tx@ };
                        let entry = DoubleEntry { account: new_account_entry, tx: tx };
                        self.log.push(entry);
                        assert(self@.lines =~= before.lines.push(line));
                        Ok(new_account_entry)
                    },
                }
            },
        }
    }

    /// The number of lines in the log.
    pub fn len(&self) -> (n: usize)
        ensures
            n == self@.lines.len(),
    {
        self.log.len()
    }
}

} // verus!
