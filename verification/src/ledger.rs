//! The chart of accounts, the account registry and the card's ledger.

use crate::error;
use crate::money::{abs, Amount, Money};
use crate::movement::{
    card_issued, card_issued_postings, closed_bill, closed_bill_postings, is_event, payment,
    payment_postings, purchase, purchase_postings,
};
use crate::postings::{
    bounded, complete, credited, debited, fresh_book, has_room, law_postings_conserve_total,
    law_versions_count_legs, legs, lemma_fresh_book, lemma_post_all_concat, lemma_post_all_step,
    lemma_room_on_the_way, post_all, post_one, total, AccountState, Book, Posting, MAX_AMOUNT,
};
use vstd::prelude::*;

verus! {

/// The number of accounts in the chart.
pub const ACCOUNTS: usize = 9;

/// The accounts of the chart: a fixed universe.
#[derive(Debug, Clone, Copy, PartialEq, Eq, Hash, Structural)]
pub enum BookAccount {
    AssetSettled,
    AssetCurrentLimit,
    AssetMaxCurrentLimit,
    AssetTransitoryBank,
    LiabilityPayable,
    LiabilityReceivable,
    LiabilityCurrentLimitCp,
    LiabilityMaxCurrentLimitCp,
    EquityInterchange,
}

impl BookAccount {
    /// The place of the account in the registry.
    spec fn slot(self) -> int {
        match self {
            BookAccount::AssetSettled => 0,
            BookAccount::AssetCurrentLimit => 1,
            BookAccount::AssetMaxCurrentLimit => 2,
            BookAccount::AssetTransitoryBank => 3,
            BookAccount::LiabilityPayable => 4,
            BookAccount::LiabilityReceivable => 5,
            BookAccount::LiabilityCurrentLimitCp => 6,
            BookAccount::LiabilityMaxCurrentLimitCp => 7,
            BookAccount::EquityInterchange => 8,
        }
    }

    /// Whether the account tracks the credit limit rather than settled
    /// money: the four limit accounts do.
    pub open spec fn is_off_balance(self) -> bool {
        match self {
            BookAccount::AssetCurrentLimit => true,
            BookAccount::AssetMaxCurrentLimit => true,
            BookAccount::LiabilityCurrentLimitCp => true,
            BookAccount::LiabilityMaxCurrentLimitCp => true,
            _ => false,
        }
    }

    /// The place of the account in the registry.
    fn index(self) -> (i: usize)
        ensures
            i == self.slot(),
            i < ACCOUNTS,
    {
        match self {
            BookAccount::AssetSettled => 0,
            BookAccount::AssetCurrentLimit => 1,
            BookAccount::AssetMaxCurrentLimit => 2,
            BookAccount::AssetTransitoryBank => 3,
            BookAccount::LiabilityPayable => 4,
            BookAccount::LiabilityReceivable => 5,
            BookAccount::LiabilityCurrentLimitCp => 6,
            BookAccount::LiabilityMaxCurrentLimitCp => 7,
            BookAccount::EquityInterchange => 8,
        }
    }

    /// Whether the account is one of the four that track the credit limit.
    pub fn off_balance(self) -> (flag: bool)
        ensures
            flag == self.is_off_balance(),
    {
        match self {
            BookAccount::AssetCurrentLimit => true,
            BookAccount::AssetMaxCurrentLimit => true,
            BookAccount::LiabilityCurrentLimitCp => true,
            BookAccount::LiabilityMaxCurrentLimitCp => true,
            _ => false,
        }
    }
}

/// The state of one account of the registry.
#[derive(Debug, Clone, Copy, PartialEq, Eq, Structural)]
pub struct AccountInfo {
    /// The running balance: credits less debits.
    pub amount: Money,
    /// The number of debits and credits applied so far.
    pub version: u32,
    /// Whether the account tracks the credit limit rather than money.
    pub off_balance: bool,
}

impl AccountInfo {
    /// The account as mathematics.
    pub open spec fn state(self) -> AccountState {
        AccountState {
            amount: self.amount.cents as int,
            version: self.version as nat,
            off_balance: self.off_balance,
        }
    }
}

/// One debit paired with one credit, as it is journaled. A ledger takes
/// entries by value and hands them out by shared reference only, so an
/// entry that was applied never changes.
#[derive(Debug, PartialEq, Eq)]
pub struct Entry {
    /// The event that the entry belongs to: entries made together share it.
    pub id: u128,
    /// The amount moved.
    pub amount: Amount,
    pub debit_account: BookAccount,
    pub credit_account: BookAccount,
    /// When the entry was made: nanoseconds since the Unix epoch, UTC.
    pub post_date: i128,
    /// The merchant, on the entries of a purchase.
    pub merchant: Option<String>,
}

impl Entry {
    /// What the entry does to the accounts.
    pub open spec fn posting(self) -> Posting {
        Posting {
            debit: self.debit_account,
            credit: self.credit_account,
            amount: self.amount.cents as nat,
        }
    }

    /// The merchant's name, if the entry has one.
    pub open spec fn merchant_name(self) -> Option<Seq<char>> {
        match self.merchant {
            Some(name) => Some(name@),
            None => None,
        }
    }
}

/// What a sequence of entries does to the accounts.
pub open spec fn postings(entries: Seq<Entry>) -> Seq<Posting> {
    Seq::new(entries.len(), |i: int| entries[i].posting())
}

/// The account registry: the state of every account of the chart.
#[derive(Debug, PartialEq, Eq)]
pub struct Registry {
    slots: Vec<AccountInfo>,
}

impl View for Registry {
    type V = Book;

    closed spec fn view(&self) -> Book {
        Map::new(
            |a: BookAccount| a.slot() < self.slots@.len(),
            |a: BookAccount| self.slots@[a.slot()].state(),
        )
    }
}

impl Registry {
    /// The registry's validity: it holds every account of the chart, each
    /// with the flag that the chart gives it and with a balance that its
    /// postings can have produced.
    pub closed spec fn wf(&self) -> bool {
        self.slots@.len() == ACCOUNTS && bounded(self@)
    }

    /// A valid registry is a complete and bounded book, and a decimal can
    /// hold each of its balances.
    pub proof fn lemma_wf(&self)
        requires
            self.wf(),
        ensures
            complete(self@),
            bounded(self@),
            has_room(self@),
            forall|a: BookAccount| abs((#[trigger] self@[a]).amount) <= u32::MAX * MAX_AMOUNT,
    {
        assert forall|a: BookAccount| abs((#[trigger] self@[a]).amount) <= u32::MAX * MAX_AMOUNT by {
            assert(self@[a].version <= u32::MAX);
            assert(abs(self@[a].amount) <= self@[a].version * MAX_AMOUNT);
        }
    }

    /// The registry before anything was posted: every account at zero.
    pub fn new() -> (registry: Registry)
        ensures
            registry.wf(),
            registry@ == fresh_book(),
    {
        let mut slots: Vec<AccountInfo> = Vec::new();
        slots.push(Self::opened(BookAccount::AssetSettled));
        slots.push(Self::opened(BookAccount::AssetCurrentLimit));
        slots.push(Self::opened(BookAccount::AssetMaxCurrentLimit));
        slots.push(Self::opened(BookAccount::AssetTransitoryBank));
        slots.push(Self::opened(BookAccount::LiabilityPayable));
        slots.push(Self::opened(BookAccount::LiabilityReceivable));
        slots.push(Self::opened(BookAccount::LiabilityCurrentLimitCp));
        slots.push(Self::opened(BookAccount::LiabilityMaxCurrentLimitCp));
        slots.push(Self::opened(BookAccount::EquityInterchange));
        let registry = Registry { slots };
        assert(registry@ =~= fresh_book());
        registry
    }

    /// A newly opened account.
    fn opened(account: BookAccount) -> (info: AccountInfo)
        ensures
            info.state() == (AccountState { amount: 0, version: 0, off_balance: account.is_off_balance() }),
    {
        AccountInfo { amount: Money::from_cents(0), version: 0, off_balance: account.off_balance() }
    }

    /// The state of `account`, or `BookAccountNonExistent` where the
    /// registry does not hold it, which a valid registry always does.
    pub fn lookup(&self, account: BookAccount) -> (found: Result<AccountInfo, error::Result>)
        ensures
            match found {
                Ok(info) => self@.dom().contains(account) && info.state() == self@[account],
                Err(e) => !self@.dom().contains(account) && e == error::Result::BookAccountNonExistent,
            },
            self.wf() ==> found is Ok,
    {
        let i = account.index();
        if i < self.slots.len() {
            Ok(self.slots[i])
        } else {
            Err(error::Result::BookAccountNonExistent)
        }
    }

    /// The balance of `account`: its amount without the sign.
    pub fn balance(&self, account: BookAccount) -> (found: Result<Money, error::Result>)
        requires
            self.wf(),
        ensures
            found is Ok,
            found->Ok_0.cents == abs(self@[account].amount),
    {
        proof {
            self.lemma_wf();
        }
        match self.lookup(account) {
            Ok(info) => {
                assert(abs(self@[account].amount) <= u32::MAX * MAX_AMOUNT);
                Ok(info.amount.abs())
            },
            Err(e) => Err(e),
        }
    }

    /// Whether every account can take the debits and credits of `entries`
    /// without its version counter running over: what `post` and the
    /// ledger's commands ask of their callers.
    pub fn can_take(&self, entries: &Vec<Entry>) -> (room: bool)
        requires
            self.wf(),
        ensures
            room == has_room(post_all(self@, postings(entries@))),
    {
        let ghost ps = postings(entries@);
        let n = entries.len();
        let mut counts: Vec<u128> = Vec::new();
        let mut j: usize = 0;
        while j < ACCOUNTS
            invariant
                j <= ACCOUNTS,
                counts@.len() == j,
                forall|k: int| 0 <= k < j ==> counts@[k] == 0,
            decreases ACCOUNTS - j,
        {
            counts.push(0);
            j = j + 1;
        }
        let mut i: usize = 0;
        while i < n
            invariant
                i <= n,
                n == entries.len(),
                ps == postings(entries@),
                counts@.len() == ACCOUNTS,
                forall|a: BookAccount| counts@[#[trigger] a.slot()] == legs(ps.take(i as int), a),
                forall|a: BookAccount| #[trigger] legs(ps.take(i as int), a) <= 2 * i,
            decreases n - i,
        {
            let d = entries[i].debit_account.index();
            let c = entries[i].credit_account.index();
            proof {
                assert(ps.take(i + 1).drop_last() =~= ps.take(i as int));
                assert(ps.take(i + 1).last() == entries@[i as int].posting());
                assert(legs(ps.take(i as int), entries@[i as int].debit_account) <= 2 * i);
                assert(legs(ps.take(i as int), entries@[i as int].credit_account) <= 2 * i);
                assert forall|a: BookAccount| #[trigger] legs(ps.take(i + 1), a) <= 2 * (i + 1) by {
                    assert(legs(ps.take(i as int), a) <= 2 * i);
                }
            }
            counts.set(d, counts[d] + 1);
            counts.set(c, counts[c] + 1);
            i = i + 1;
        }
        proof {
            assert(ps.take(n as int) =~= ps);
            self.lemma_wf();
            law_versions_count_legs(self@, ps);
            law_postings_conserve_total(self@, ps);
        }
        let room = self.takes(&counts, BookAccount::AssetSettled)
            && self.takes(&counts, BookAccount::AssetCurrentLimit)
            && self.takes(&counts, BookAccount::AssetMaxCurrentLimit)
            && self.takes(&counts, BookAccount::AssetTransitoryBank)
            && self.takes(&counts, BookAccount::LiabilityPayable)
            && self.takes(&counts, BookAccount::LiabilityReceivable)
            && self.takes(&counts, BookAccount::LiabilityCurrentLimitCp)
            && self.takes(&counts, BookAccount::LiabilityMaxCurrentLimitCp)
            && self.takes(&counts, BookAccount::EquityInterchange);
        proof {
            let after = post_all(self@, ps);
            if room {
                assert forall|a: BookAccount| (#[trigger] after[a]).version <= u32::MAX by {
                    assert(counts@[a.slot()] == legs(ps, a));
                }
            } else {
                assert(exists|a: BookAccount| self@[a].version + counts@[a.slot()] > u32::MAX);
                let a = choose|a: BookAccount| self@[a].version + counts@[a.slot()] > u32::MAX;
                assert(after[a].version > u32::MAX);
            }
        }
        room
    }

    /// Whether the version of `account` can grow by its count.
    fn takes(&self, counts: &Vec<u128>, account: BookAccount) -> (room: bool)
        requires
            self.wf(),
            counts@.len() == ACCOUNTS,
            counts@[account.slot()] <= 2 * usize::MAX,
        ensures
            room == (self@[account].version + counts@[account.slot()] <= u32::MAX),
    {
        let i = account.index();
        self.slots[i].version as u128 + counts[i] <= 0xffff_ffff
    }

    /// Debits `account` by `amount` and raises its version.
    fn debit(&mut self, account: BookAccount, amount: Amount)
        requires
            old(self).wf(),
            old(self)@[account].version < u32::MAX,
        ensures
            final(self).wf(),
            final(self)@ == old(self)@.insert(account, debited(old(self)@[account], amount.cents as nat)),
    {
        let i = account.index();
        let before = self.slots[i];
        assert(before.state() == old(self)@[account]);
        assert(abs(before.amount.cents as int) <= before.version * MAX_AMOUNT);
        let after = AccountInfo {
            amount: before.amount.debit(amount),
            version: before.version + 1,
            off_balance: before.off_balance,
        };
        self.slots.set(i, after);
        proof {
            let target = old(self)@.insert(account, debited(old(self)@[account], amount.cents as nat));
            assert forall|a: BookAccount| #[trigger] self@.dom().contains(a) implies self@[a] == target[a] by {
                if a != account {
                    assert(a.slot() != account.slot());
                    assert(self@[a] == old(self)@[a]);
                }
            }
            assert(self@ =~= target);
            assert forall|a: BookAccount|
                abs((#[trigger] self@[a]).amount) <= self@[a].version * MAX_AMOUNT && self@[a].off_balance
                    == a.is_off_balance() by {
                assert(abs(old(self)@[a].amount) <= old(self)@[a].version * MAX_AMOUNT);
            }
        }
    }

    /// Credits `account` by `amount` and raises its version.
    fn credit(&mut self, account: BookAccount, amount: Amount)
        requires
            old(self).wf(),
            old(self)@[account].version < u32::MAX,
        ensures
            final(self).wf(),
            final(self)@ == old(self)@.insert(account, credited(old(self)@[account], amount.cents as nat)),
    {
        let i = account.index();
        let before = self.slots[i];
        assert(before.state() == old(self)@[account]);
        assert(abs(before.amount.cents as int) <= before.version * MAX_AMOUNT);
        let after = AccountInfo {
            amount: before.amount.credit(amount),
            version: before.version + 1,
            off_balance: before.off_balance,
        };
        self.slots.set(i, after);
        proof {
            let target = old(self)@.insert(account, credited(old(self)@[account], amount.cents as nat));
            assert forall|a: BookAccount| #[trigger] self@.dom().contains(a) implies self@[a] == target[a] by {
                if a != account {
                    assert(a.slot() != account.slot());
                    assert(self@[a] == old(self)@[a]);
                }
            }
            assert(self@ =~= target);
            assert forall|a: BookAccount|
                abs((#[trigger] self@[a]).amount) <= self@[a].version * MAX_AMOUNT && self@[a].off_balance
                    == a.is_off_balance() by {
                assert(abs(old(self)@[a].amount) <= old(self)@[a].version * MAX_AMOUNT);
            }
        }
    }

    /// Applies one entry: debits its debit account and credits its credit
    /// account by the entry's amount, both at once, and raises the version
    /// of each.
    pub fn post(&mut self, entry: &Entry) -> (done: Result<(), error::Result>)
        requires
            old(self).wf(),
            has_room(post_one(old(self)@, entry.posting())),
        ensures
            done is Ok,
            final(self).wf(),
            final(self)@ == post_one(old(self)@, entry.posting()),
    {
        let d = entry.debit_account.index();
        let c = entry.credit_account.index();
        if d >= self.slots.len() || c >= self.slots.len() {
            return Err(error::Result::BookAccountNonExistent);
        }
        proof {
            let target = post_one(old(self)@, entry.posting());
            assert(target[entry.debit_account].version <= u32::MAX);
            assert(target[entry.credit_account].version <= u32::MAX);
        }
        self.debit(entry.debit_account, entry.amount);
        self.credit(entry.credit_account, entry.amount);
        Ok(())
    }
}

/// Where the card stands in its life: it only ever moves forward.
#[derive(Debug, Clone, Copy, PartialEq, Eq, Structural)]
pub enum CardStatus {
    NotIssued,
    Inactive,
    Active,
}

impl CardStatus {
    /// How far the card has come in its life.
    pub open spec fn rank(self) -> nat {
        match self {
            CardStatus::NotIssued => 0,
            CardStatus::Inactive => 1,
            CardStatus::Active => 2,
        }
    }
}

/// The card of a ledger.
#[derive(Debug, Clone, Copy, PartialEq, Eq, Structural)]
pub struct Card {
    pub status: CardStatus,
    /// The limit that the card was issued with; zero before that.
    pub max_limit: Amount,
}

/// The event of issuing a card.
#[derive(Debug, PartialEq, Eq)]
pub struct CardIssued;

/// The event of a purchase.
#[derive(Debug, PartialEq, Eq)]
pub struct Purchase;

/// The event of closing a bill.
#[derive(Debug, PartialEq, Eq)]
pub struct ClosedBill;

/// The event of a payment.
#[derive(Debug, PartialEq, Eq)]
pub struct Payment;

impl CardIssued {
    /// The entries of a card issued now with `max_limit`.
    pub fn new(max_limit: Amount) -> (entries: Vec<Entry>)
        ensures
            is_event(entries@, card_issued_postings(max_limit.cents as nat), None),
    {
        card_issued(max_limit)
    }
}

impl Purchase {
    /// The entries of a purchase of `amount` made now at `merchant`.
    pub fn new(merchant: String, amount: Amount) -> (entries: Vec<Entry>)
        ensures
            is_event(entries@, purchase_postings(amount.cents as nat), Some(merchant@)),
    {
        purchase(merchant, amount)
    }
}

impl ClosedBill {
    /// The entry of a bill closed now at `closed_amount`.
    pub fn new(closed_amount: Amount) -> (entries: Vec<Entry>)
        ensures
            is_event(entries@, closed_bill_postings(closed_amount.cents as nat), None),
    {
        closed_bill(closed_amount)
    }
}

impl Payment {
    /// The entries of a payment of `payment_amount` made now.
    pub fn new(payment_amount: Amount) -> (entries: Vec<Entry>)
        ensures
            is_event(entries@, payment_postings(payment_amount.cents as nat), None),
    {
        payment(payment_amount)
    }
}

/// A ledger as mathematics.
pub struct LedgerState {
    pub status: CardStatus,
    /// The card's limit in cents.
    pub max_limit: nat,
    pub accounts: Book,
    /// The entries applied so far, the oldest first.
    pub journal: Seq<Entry>,
}

impl LedgerState {
    /// The limit that is left to spend: the amount of the current-limit
    /// asset account without its sign.
    pub open spec fn balance(self) -> nat {
        abs(self.accounts[BookAccount::AssetCurrentLimit].amount)
    }

    /// The settled amount that a bill would close: the amount of the
    /// settled asset account without its sign.
    pub open spec fn settled(self) -> nat {
        abs(self.accounts[BookAccount::AssetSettled].amount)
    }

    /// Whether a purchase of `amount` at `merchant` repeats the entry that
    /// was journaled last.
    pub open spec fn repeats_last(self, merchant: Seq<char>, amount: nat) -> bool {
        self.journal.len() > 0 && self.journal.last().merchant_name() == Some(merchant)
            && self.journal.last().amount.cents == amount
    }

    /// Whether this ledger is `before` with one more event: the postings
    /// `ps` applied to the accounts, and their entries, carrying `merchant`,
    /// behind the journal that was there.
    pub open spec fn records(self, before: LedgerState, ps: Seq<Posting>, merchant: Option<Seq<char>>) -> bool {
        &&& self.accounts == post_all(before.accounts, ps)
        &&& self.journal.len() == before.journal.len() + ps.len()
        &&& self.journal.take(before.journal.len() as int) == before.journal
        &&& is_event(self.journal.skip(before.journal.len() as int), ps, merchant)
    }

    /// Whether this ledger can have come from `before`: its journal begins
    /// with the journal that was there, its accounts are the accounts that
    /// were there with the entries behind that beginning posted to them,
    /// the card has not gone back in its life, and the limit of a card that
    /// was issued is what it was.
    pub open spec fn follows(self, before: LedgerState) -> bool {
        &&& before.journal.len() <= self.journal.len()
        &&& self.journal.take(before.journal.len() as int) == before.journal
        &&& self.accounts == post_all(before.accounts, postings(self.journal.skip(before.journal.len() as int)))
        &&& before.status.rank() <= self.status.rank()
        &&& before.status != CardStatus::NotIssued ==> self.max_limit == before.max_limit
    }

    /// Why a purchase of `amount` at `merchant` is refused, if it is: the
    /// card's status is looked at first, then the limit, then the journal.
    pub open spec fn purchase_refusal(self, merchant: Seq<char>, amount: nat) -> Option<error::Result> {
        if self.status == CardStatus::NotIssued {
            Some(error::Result::CardNotIssued)
        } else if self.status == CardStatus::Inactive {
            Some(error::Result::CardInactive)
        } else if self.balance() < amount {
            Some(error::Result::InsufficientLimit)
        } else if self.repeats_last(merchant, amount) {
            Some(error::Result::DoubleTransaction)
        } else {
            None
        }
    }
}

/// The ledger of one card: the card, the account registry and the journal.
#[derive(Debug, PartialEq, Eq)]
pub struct Ledger {
    card: Card,
    accounts: Registry,
    journal: Vec<Entry>,
}

impl View for Ledger {
    type V = LedgerState;

    closed spec fn view(&self) -> LedgerState {
        LedgerState {
            status: self.card.status,
            max_limit: self.card.max_limit.cents as nat,
            accounts: self.accounts@,
            journal: self.journal@,
        }
    }
}

impl Ledger {
    /// The ledger's validity: its registry is valid, and its accounts are
    /// what the journal's entries, posted in order to a fresh book, give.
    pub closed spec fn wf(&self) -> bool {
        self.accounts.wf() && self.accounts@ == post_all(fresh_book(), postings(self.journal@))
    }

    /// In every valid ledger the accounts are the journal replayed, and
    /// they are balanced: the amounts of all accounts sum to zero.
    pub proof fn law_balanced(&self)
        requires
            self.wf(),
        ensures
            self@.accounts == post_all(fresh_book(), postings(self@.journal)),
            complete(self@.accounts),
            total(self@.accounts) == 0,
            bounded(self@.accounts),
            has_room(self@.accounts),
    {
        self.accounts.lemma_wf();
        lemma_fresh_book();
        law_postings_conserve_total(fresh_book(), postings(self.journal@));
    }

    /// A ledger with no card issued, every account at zero and an empty
    /// journal.
    pub fn new() -> (ledger: Ledger)
        ensures
            ledger.wf(),
            ledger@.status == CardStatus::NotIssued,
            ledger@.max_limit == 0,
            ledger@.accounts == fresh_book(),
            ledger@.journal == Seq::<Entry>::empty(),
    {
        let ledger = Ledger {
            card: Card { status: CardStatus::NotIssued, max_limit: Amount::from_cents(0) },
            accounts: Registry::new(),
            journal: Vec::new(),
        };
        assert(postings(ledger.journal@) =~= Seq::<Posting>::empty());
        assert(ledger.journal@ =~= Seq::<Entry>::empty());
        ledger
    }

    /// The card.
    pub fn card(&self) -> (card: Card)
        ensures
            card.status == self@.status,
            card.max_limit.cents == self@.max_limit,
    {
        self.card
    }

    /// The card's status.
    pub fn status(&self) -> (status: CardStatus)
        ensures
            status == self@.status,
    {
        self.card.status
    }

    /// The limit that the card was issued with.
    pub fn max_limit(&self) -> (limit: Amount)
        ensures
            limit.cents == self@.max_limit,
    {
        self.card.max_limit
    }

    /// The entries applied so far, the oldest first.
    pub fn journal(&self) -> (journal: &Vec<Entry>)
        ensures
            journal@ == self@.journal,
    {
        &self.journal
    }

    /// The account registry.
    pub fn accounts(&self) -> (accounts: &Registry)
        ensures
            accounts@ == self@.accounts,
            self.wf() ==> accounts.wf(),
    {
        &self.accounts
    }

    /// The limit that is left to spend.
    pub fn get_balance(&self) -> (balance: Money)
        requires
            self.wf(),
        ensures
            balance.cents == self@.balance(),
    {
        match self.accounts.balance(BookAccount::AssetCurrentLimit) {
            Ok(balance) => balance,
            Err(_) => Money::from_cents(0),
        }
    }

    /// Applies `entries` to the accounts, one after the other, and appends
    /// them to the journal. All of them are applied or none.
    pub fn process(&mut self, entries: Vec<Entry>) -> (done: Result<(), error::Result>)
        requires
            old(self).wf(),
            has_room(post_all(old(self)@.accounts, postings(entries@))),
        ensures
            done is Ok,
            final(self).wf(),
            final(self)@.follows(old(self)@),
            final(self)@.accounts == post_all(old(self)@.accounts, postings(entries@)),
            final(self)@.journal == old(self)@.journal + entries@,
            final(self)@.status == old(self)@.status,
            final(self)@.max_limit == old(self)@.max_limit,
    {
        let mut entries = entries;
        let n = entries.len();
        let ghost ps = postings(entries@);
        let ghost start = self.accounts@;
        proof {
            self.accounts.lemma_wf();
        }
        // Nothing is posted before every account is known to exist.
        let mut k: usize = 0;
        while k < n
            invariant
                k <= n,
                n == entries.len(),
                self.accounts.wf(),
                self.accounts@ == start,
                self.journal == old(self).journal,
                self.card == old(self).card,
            decreases n - k,
        {
            let entry = &entries[k];
            if self.accounts.lookup(entry.debit_account).is_err() || self.accounts.lookup(
                entry.credit_account,
            ).is_err() {
                return Err(error::Result::BookAccountNonExistent);
            }
            k = k + 1;
        }
        let mut i: usize = 0;
        while i < n
            invariant
                i <= n,
                n == entries.len(),
                ps == postings(entries@),
                complete(start),
                has_room(post_all(start, ps)),
                self.accounts.wf(),
                self.accounts@ == post_all(start, ps.take(i as int)),
                self.journal == old(self).journal,
                self.card == old(self).card,
            decreases n - i,
        {
            proof {
                lemma_room_on_the_way(start, ps, i + 1);
                lemma_post_all_step(start, ps, i as int);
            }
            match self.accounts.post(&entries[i]) {
                Ok(()) => {},
                Err(e) => {
                    return Err(e);
                },
            }
            i = i + 1;
        }
        proof {
            assert(ps.take(n as int) =~= ps);
            lemma_post_all_concat(fresh_book(), postings(self.journal@), ps);
            assert(postings(self.journal@ + entries@) =~= postings(self.journal@) + ps);
            lemma_appended(self.journal@, entries@);
        }
        self.journal.append(&mut entries);
        Ok(())
    }

    /// Issues the card with `max_limit`. Accepted once: on a ledger whose
    /// card was issued before, the call fails and changes nothing.
    pub fn issue_card(&mut self, max_limit: Amount) -> (issued: Result<CardStatus, error::Result>)
        requires
            old(self).wf(),
            old(self)@.status == CardStatus::NotIssued ==> has_room(
                post_all(old(self)@.accounts, card_issued_postings(max_limit.cents as nat)),
            ),
        ensures
            final(self).wf(),
            final(self)@.follows(old(self)@),
            old(self)@.status != CardStatus::NotIssued ==> issued == Err::<CardStatus, error::Result>(
                error::Result::CardAlreadyIssued,
            ) && final(self)@ == old(self)@,
            old(self)@.status == CardStatus::NotIssued ==> {
                &&& issued == Ok::<CardStatus, error::Result>(CardStatus::Inactive)
                &&& final(self)@.status == CardStatus::Inactive
                &&& final(self)@.max_limit == max_limit.cents
                &&& final(self)@.records(old(self)@, card_issued_postings(max_limit.cents as nat), None)
            },
    {
        proof {
            law_follows_reflexive(old(self)@);
        }
        match self.card.status {
            CardStatus::NotIssued => {
                let entries = CardIssued::new(max_limit);
                let ghost added = entries@;
                match self.process(entries) {
                    Ok(()) => {},
                    Err(e) => {
                        return Err(e);
                    },
                }
                self.card = Card { status: CardStatus::Inactive, max_limit };
                proof {
                    lemma_appended(old(self)@.journal, added);
                }
                Ok(CardStatus::Inactive)
            },
            _ => Err(error::Result::CardAlreadyIssued),
        }
    }

    /// Activates the card. Fails, and changes nothing, where no card was
    /// issued; an active card stays active.
    pub fn activate_card(&mut self) -> (activated: Result<CardStatus, error::Result>)
        requires
            old(self).wf(),
        ensures
            final(self).wf(),
            final(self)@.follows(old(self)@),
            final(self)@.accounts == old(self)@.accounts,
            final(self)@.journal == old(self)@.journal,
            final(self)@.max_limit == old(self)@.max_limit,
            old(self)@.status == CardStatus::NotIssued ==> activated == Err::<CardStatus, error::Result>(
                error::Result::CardNotIssued,
            ) && final(self)@ == old(self)@,
            old(self)@.status != CardStatus::NotIssued ==> activated == Ok::<CardStatus, error::Result>(
                CardStatus::Active,
            ) && final(self)@.status == CardStatus::Active,
    {
        proof {
            law_follows_reflexive(old(self)@);
        }
        match self.card.status {
            CardStatus::NotIssued => Err(error::Result::CardNotIssued),
            _ => {
                self.card = Card { status: CardStatus::Active, max_limit: self.card.max_limit };
                Ok(CardStatus::Active)
            },
        }
    }

    /// Books a purchase of `amount` at `merchant`. The card's status is
    /// checked first, then the limit that is left, then whether the
    /// purchase repeats the entry journaled last; a refused purchase
    /// changes nothing.
    pub fn process_purchase(&mut self, merchant: String, amount: Amount) -> (done: Result<
        (),
        error::Result,
    >)
        requires
            old(self).wf(),
            old(self)@.purchase_refusal(merchant@, amount.cents as nat) is None ==> has_room(
                post_all(old(self)@.accounts, purchase_postings(amount.cents as nat)),
            ),
        ensures
            final(self).wf(),
            final(self)@.follows(old(self)@),
            final(self)@.status == old(self)@.status,
            final(self)@.max_limit == old(self)@.max_limit,
            match old(self)@.purchase_refusal(merchant@, amount.cents as nat) {
                Some(e) => done == Err::<(), error::Result>(e) && final(self)@ == old(self)@,
                None => done is Ok && final(self)@.records(
                    old(self)@,
                    purchase_postings(amount.cents as nat),
                    Some(merchant@),
                ),
            },
    {
        proof {
            law_follows_reflexive(old(self)@);
        }
        match self.card.status {
            CardStatus::Active => {
                let balance = self.get_balance();
                proof {
                    self.accounts.lemma_wf();
                }
                if balance.less_than(amount) {
                    return Err(error::Result::InsufficientLimit);
                }
                if self.repeats_last(&merchant, amount) {
                    return Err(error::Result::DoubleTransaction);
                }
                let entries = Purchase::new(merchant, amount);
                let ghost added = entries@;
                match self.process(entries) {
                    Ok(()) => {},
                    Err(e) => {
                        return Err(e);
                    },
                }
                proof {
                    lemma_appended(old(self)@.journal, added);
                }
                Ok(())
            },
            CardStatus::NotIssued => Err(error::Result::CardNotIssued),
            CardStatus::Inactive => Err(error::Result::CardInactive),
        }
    }

    /// Whether a purchase of `amount` at `merchant` repeats the entry that
    /// was journaled last. Only that one entry is looked at.
    pub fn repeats_last(&self, merchant: &String, amount: Amount) -> (repeats: bool)
        ensures
            repeats == self@.repeats_last(merchant@, amount.cents as nat),
    {
        let n = self.journal.len();
        if n == 0 {
            return false;
        }
        let last = &self.journal[n - 1];
        match &last.merchant {
            Some(name) => *name == *merchant && last.amount.cents == amount.cents,
            None => false,
        }
    }

    /// Closes the bill: moves what the settled account holds, without its
    /// sign, to the receivable account. Fails, and changes nothing, where
    /// no card was issued.
    pub fn close_bill(&mut self) -> (done: Result<(), error::Result>)
        requires
            old(self).wf(),
            old(self)@.status != CardStatus::NotIssued ==> old(self)@.settled() <= MAX_AMOUNT && has_room(
                post_all(old(self)@.accounts, closed_bill_postings(old(self)@.settled())),
            ),
        ensures
            final(self).wf(),
            final(self)@.follows(old(self)@),
            final(self)@.status == old(self)@.status,
            final(self)@.max_limit == old(self)@.max_limit,
            old(self)@.status == CardStatus::NotIssued ==> done == Err::<(), error::Result>(
                error::Result::CardNotIssued,
            ) && final(self)@ == old(self)@,
            old(self)@.status != CardStatus::NotIssued ==> done is Ok && final(self)@.records(
                old(self)@,
                closed_bill_postings(old(self)@.settled()),
                None,
            ),
    {
        proof {
            law_follows_reflexive(old(self)@);
        }
        match self.card.status {
            CardStatus::NotIssued => Err(error::Result::CardNotIssued),
            _ => {
                match self.accounts.balance(BookAccount::AssetSettled) {
                    Ok(bill) => {
                        let bill_amount = Amount::from_cents(bill.cents as u64);
                        let entries = ClosedBill::new(bill_amount);
                        let ghost added = entries@;
                        match self.process(entries) {
                            Ok(()) => {},
                            Err(e) => {
                                return Err(e);
                            },
                        }
                        proof {
                            lemma_appended(old(self)@.journal, added);
                        }
                    },
                    Err(e) => {
                        return Err(e);
                    },
                }
                Ok(())
            },
        }
    }

    /// Books a payment of `payment_amount`. Fails, and changes nothing,
    /// where no card was issued.
    pub fn process_payment(&mut self, payment_amount: Amount) -> (done: Result<(), error::Result>)
        requires
            old(self).wf(),
            old(self)@.status != CardStatus::NotIssued ==> has_room(
                post_all(old(self)@.accounts, payment_postings(payment_amount.cents as nat)),
            ),
        ensures
            final(self).wf(),
            final(self)@.follows(old(self)@),
            final(self)@.status == old(self)@.status,
            final(self)@.max_limit == old(self)@.max_limit,
            old(self)@.status == CardStatus::NotIssued ==> done == Err::<(), error::Result>(
                error::Result::CardNotIssued,
            ) && final(self)@ == old(self)@,
            old(self)@.status != CardStatus::NotIssued ==> done is Ok && final(self)@.records(
                old(self)@,
                payment_postings(payment_amount.cents as nat),
                None,
            ),
    {
        proof {
            law_follows_reflexive(old(self)@);
        }
        match self.card.status {
            CardStatus::NotIssued => Err(error::Result::CardNotIssued),
            _ => {
                let entries = Payment::new(payment_amount);
                let ghost added = entries@;
                match self.process(entries) {
                    Ok(()) => {},
                    Err(e) => {
                        return Err(e);
                    },
                }
                proof {
                    lemma_appended(old(self)@.journal, added);
                }
                Ok(())
            },
        }
    }
}

/// Every ledger follows from itself.
pub proof fn law_follows_reflexive(state: LedgerState)
    ensures
        state.follows(state),
{
    assert(state.journal.take(state.journal.len() as int) =~= state.journal);
    assert(postings(state.journal.skip(state.journal.len() as int)) =~= Seq::<Posting>::empty());
}

/// What follows from a ledger that follows from another follows from that
/// other: whatever commands lie between two states of a ledger, the journal
/// only grows at its end, the accounts are the journal's growth posted, and
/// the card does not go back.
pub proof fn law_follows_transitive(first: LedgerState, second: LedgerState, third: LedgerState)
    requires
        second.follows(first),
        third.follows(second),
    ensures
        third.follows(first),
{
    let a = first.journal.len() as int;
    let b = second.journal.len() as int;
    assert(third.journal.take(a) =~= third.journal.take(b).take(a));
    let early = second.journal.skip(a);
    let late = third.journal.skip(b);
    assert(third.journal.skip(a) =~= early + late) by {
        assert(third.journal.take(b) == second.journal);
        assert forall|i: int| 0 <= i < early.len() implies third.journal.skip(a)[i] == early[i] by {
            assert(third.journal.take(b)[a + i] == second.journal[a + i]);
        }
    }
    assert(postings(early + late) =~= postings(early) + postings(late));
    lemma_post_all_concat(first.accounts, postings(early), postings(late));
}

/// A card is issued once: in whatever follows from a ledger whose card was
/// issued, the card is issued and has the limit that it had.
pub proof fn law_issued_once(before: LedgerState, after: LedgerState)
    requires
        after.follows(before),
        before.status != CardStatus::NotIssued,
    ensures
        after.status != CardStatus::NotIssued,
        after.max_limit == before.max_limit,
{
}

/// A purchase is judged by the card's status before the limit is looked at,
/// and one that is over the limit left is refused whatever the journal
/// holds.
pub proof fn law_purchase_refusals(state: LedgerState, merchant: Seq<char>, amount: nat)
    ensures
        state.status == CardStatus::NotIssued ==> state.purchase_refusal(merchant, amount) == Some(
            error::Result::CardNotIssued,
        ),
        state.status == CardStatus::Inactive ==> state.purchase_refusal(merchant, amount) == Some(
            error::Result::CardInactive,
        ),
        state.status == CardStatus::Active && amount > state.balance() ==> state.purchase_refusal(
            merchant,
            amount,
        ) == Some(error::Result::InsufficientLimit),
        state.status == CardStatus::Active && amount <= state.balance() && state.repeats_last(
            merchant,
            amount,
        ) ==> state.purchase_refusal(merchant, amount) == Some(error::Result::DoubleTransaction),
{
}

/// A journal with entries appended begins with what it was and ends with
/// what was appended.
proof fn lemma_appended(journal: Seq<Entry>, added: Seq<Entry>)
    ensures
        (journal + added).len() == journal.len() + added.len(),
        (journal + added).take(journal.len() as int) == journal,
        (journal + added).skip(journal.len() as int) == added,
{
    assert((journal + added).take(journal.len() as int) =~= journal);
    assert((journal + added).skip(journal.len() as int) =~= added);
}

} // verus!
