//! The arithmetic of double-entry postings, as mathematics.
//!
//! A book maps each account to its state. A posting debits one account and
//! credits another by the same amount. This module says what a posting, and
//! a sequence of postings, does to a book, and proves what follows: the
//! total of all accounts never changes, versions only grow, and the size of
//! a balance is bounded by the number of postings that touched it.

use crate::ledger::BookAccount;
use crate::money::abs;
use vstd::prelude::*;

verus! {

/// The largest amount that one posting moves.
pub const MAX_AMOUNT: u64 = 0xffff_ffff_ffff_ffff;

/// What one account holds.
pub struct AccountState {
    /// The running balance in cents: credits less debits.
    pub amount: int,
    /// The number of debits and credits applied so far.
    pub version: nat,
    /// Whether the account tracks the credit limit rather than money.
    pub off_balance: bool,
}

/// One debit paired with one credit of the same amount.
pub struct Posting {
    pub debit: BookAccount,
    pub credit: BookAccount,
    /// The amount in cents.
    pub amount: nat,
}

/// The state of every account.
pub type Book = Map<BookAccount, AccountState>;

/// Whether the book holds every account of the chart.
pub open spec fn complete(book: Book) -> bool {
    forall|a: BookAccount| book.dom().contains(a)
}

/// The book before anything was posted.
pub open spec fn fresh_book() -> Book {
    Map::new(
        |a: BookAccount| true,
        |a: BookAccount| AccountState { amount: 0, version: 0, off_balance: a.is_off_balance() },
    )
}

/// An account after a debit of `amount`.
pub open spec fn debited(state: AccountState, amount: nat) -> AccountState {
    AccountState { amount: state.amount - amount, version: state.version + 1, off_balance: state.off_balance }
}

/// An account after a credit of `amount`.
pub open spec fn credited(state: AccountState, amount: nat) -> AccountState {
    AccountState { amount: state.amount + amount, version: state.version + 1, off_balance: state.off_balance }
}

/// The book after one posting: first the debit, then the credit.
pub open spec fn post_one(book: Book, p: Posting) -> Book {
    let after_debit = book.insert(p.debit, debited(book[p.debit], p.amount));
    after_debit.insert(p.credit, credited(after_debit[p.credit], p.amount))
}

/// The book after a sequence of postings, applied in order.
pub open spec fn post_all(book: Book, ps: Seq<Posting>) -> Book
    decreases ps.len(),
{
    if ps.len() == 0 {
        book
    } else {
        post_one(post_all(book, ps.drop_last()), ps.last())
    }
}

/// The sum of all account balances.
pub open spec fn total(book: Book) -> int {
    book[BookAccount::AssetSettled].amount + book[BookAccount::AssetCurrentLimit].amount
        + book[BookAccount::AssetMaxCurrentLimit].amount + book[BookAccount::AssetTransitoryBank].amount
        + book[BookAccount::LiabilityPayable].amount + book[BookAccount::LiabilityReceivable].amount
        + book[BookAccount::LiabilityCurrentLimitCp].amount
        + book[BookAccount::LiabilityMaxCurrentLimitCp].amount
        + book[BookAccount::EquityInterchange].amount
}

/// Whether every version counter of the book fits its machine type.
pub open spec fn has_room(book: Book) -> bool {
    forall|a: BookAccount| (#[trigger] book[a]).version <= u32::MAX
}

/// Whether every balance is bounded by what its postings can have moved,
/// and every account carries the flag that the chart gives it.
pub open spec fn bounded(book: Book) -> bool {
    forall|a: BookAccount|
        abs((#[trigger] book[a]).amount) <= book[a].version * MAX_AMOUNT && book[a].off_balance
            == a.is_off_balance()
}

/// A posting between two different accounts takes its amount from the debit
/// account, adds it to the credit account, raises the version of both by
/// one, and leaves every other account as it was.
pub proof fn law_posting_moves_amount(book: Book, p: Posting)
    requires
        complete(book),
        p.debit != p.credit,
    ensures
        post_one(book, p)[p.debit].amount == book[p.debit].amount - p.amount,
        post_one(book, p)[p.debit].version == book[p.debit].version + 1,
        post_one(book, p)[p.credit].amount == book[p.credit].amount + p.amount,
        post_one(book, p)[p.credit].version == book[p.credit].version + 1,
        forall|a: BookAccount| a != p.debit && a != p.credit ==> post_one(book, p)[a] == book[a],
        complete(post_one(book, p)),
{
}

/// Posting a sequence of one is posting that one.
pub proof fn law_post_all_of_one(book: Book, p: Posting)
    ensures
        post_all(book, seq![p]) == post_one(book, p),
{
    assert(seq![p].drop_last() =~= Seq::<Posting>::empty());
    assert(post_all(book, seq![p].drop_last()) == book);
}

/// A posting from an account to itself leaves its balance as it was and
/// raises its version by two.
pub proof fn law_posting_to_self(book: Book, p: Posting)
    requires
        complete(book),
        p.debit == p.credit,
    ensures
        post_one(book, p)[p.debit].amount == book[p.debit].amount,
        post_one(book, p)[p.debit].version == book[p.debit].version + 2,
        forall|a: BookAccount| a != p.debit ==> post_one(book, p)[a] == book[a],
{
}

/// One posting changes nothing of what a complete book holds but the two
/// accounts: it keeps the book complete, the total, the bounds and flags.
pub proof fn lemma_post_one_keeps(book: Book, p: Posting)
    requires
        complete(book),
    ensures
        complete(post_one(book, p)),
        total(post_one(book, p)) == total(book),
        bounded(book) && p.amount <= MAX_AMOUNT ==> bounded(post_one(book, p)),
        forall|a: BookAccount| (#[trigger] post_one(book, p)[a]).version >= book[a].version,
        forall|a: BookAccount| (#[trigger] post_one(book, p)[a]).off_balance == book[a].off_balance,
{
    let after = post_one(book, p);
    if p.debit == p.credit {
        law_posting_to_self(book, p);
    } else {
        law_posting_moves_amount(book, p);
    }
    if bounded(book) && p.amount <= MAX_AMOUNT {
        assert forall|a: BookAccount|
            abs((#[trigger] after[a]).amount) <= after[a].version * MAX_AMOUNT && after[a].off_balance
                == a.is_off_balance() by {
            assert(abs(book[a].amount) <= book[a].version * MAX_AMOUNT);
        }
    }
}

/// Whether no posting of the sequence moves more than the largest amount.
pub open spec fn amounts_fit(ps: Seq<Posting>) -> bool {
    forall|i: int| 0 <= i < ps.len() ==> (#[trigger] ps[i]).amount <= MAX_AMOUNT
}

/// Double-entry conservation: whatever is posted to a complete book, the
/// total of its accounts stays what it was. The book stays complete, no
/// version falls, no flag changes, and the bounds on the balances hold on.
pub proof fn law_postings_conserve_total(book: Book, ps: Seq<Posting>)
    requires
        complete(book),
    ensures
        complete(post_all(book, ps)),
        total(post_all(book, ps)) == total(book),
        bounded(book) && amounts_fit(ps) ==> bounded(post_all(book, ps)),
        forall|a: BookAccount| (#[trigger] post_all(book, ps)[a]).version >= book[a].version,
        forall|a: BookAccount| (#[trigger] post_all(book, ps)[a]).off_balance == book[a].off_balance,
    decreases ps.len(),
{
    if ps.len() > 0 {
        let before = post_all(book, ps.drop_last());
        law_postings_conserve_total(book, ps.drop_last());
        lemma_post_one_keeps(before, ps.last());
        if bounded(book) && amounts_fit(ps) {
            assert(amounts_fit(ps.drop_last())) by {
                assert forall|i: int| 0 <= i < ps.drop_last().len() implies (#[trigger] ps.drop_last()[i]).amount
                    <= MAX_AMOUNT by {
                    assert(ps.drop_last()[i] == ps[i]);
                }
            }
            assert(ps.last() == ps[ps.len() - 1]);
        }
        assert forall|a: BookAccount| (#[trigger] post_all(book, ps)[a]).version >= book[a].version by {
            assert(before[a].version >= book[a].version);
        }
        assert forall|a: BookAccount| (#[trigger] post_all(book, ps)[a]).off_balance == book[a].off_balance by {
            assert(before[a].off_balance == book[a].off_balance);
        }
    }
}

/// The fresh book is complete, totals zero and meets its bounds.
pub proof fn lemma_fresh_book()
    ensures
        complete(fresh_book()),
        total(fresh_book()) == 0,
        bounded(fresh_book()),
        has_room(fresh_book()),
{
}

/// Posting one sequence and then another is posting the two in a row.
pub proof fn lemma_post_all_concat(book: Book, xs: Seq<Posting>, ys: Seq<Posting>)
    ensures
        post_all(post_all(book, xs), ys) == post_all(book, xs + ys),
    decreases ys.len(),
{
    if ys.len() == 0 {
        assert(xs + ys =~= xs);
    } else {
        lemma_post_all_concat(book, xs, ys.drop_last());
        assert((xs + ys).drop_last() =~= xs + ys.drop_last());
        assert((xs + ys).last() == ys.last());
    }
}

/// Posting the first `k + 1` of a sequence is posting the first `k` and then
/// the one that follows.
pub proof fn lemma_post_all_step(book: Book, ps: Seq<Posting>, k: int)
    requires
        0 <= k < ps.len(),
    ensures
        post_all(book, ps.take(k + 1)) == post_one(post_all(book, ps.take(k)), ps[k]),
{
    assert(ps.take(k + 1).drop_last() =~= ps.take(k));
    assert(ps.take(k + 1).last() == ps[k]);
}

/// Where the whole sequence leaves room in every version counter, so does
/// each of its beginnings.
pub proof fn lemma_room_on_the_way(book: Book, ps: Seq<Posting>, k: int)
    requires
        complete(book),
        0 <= k <= ps.len(),
        has_room(post_all(book, ps)),
    ensures
        has_room(post_all(book, ps.take(k))),
{
    let on_the_way = post_all(book, ps.take(k));
    law_postings_conserve_total(book, ps.take(k));
    law_postings_conserve_total(on_the_way, ps.skip(k));
    lemma_post_all_concat(book, ps.take(k), ps.skip(k));
    assert(ps.take(k) + ps.skip(k) =~= ps);
    assert forall|a: BookAccount| (#[trigger] on_the_way[a]).version <= u32::MAX by {
        assert(post_all(on_the_way, ps.skip(k))[a].version >= on_the_way[a].version);
        assert(post_all(book, ps)[a].version <= u32::MAX);
    }
}

/// How many debits and credits of `ps` touch the account `a`.
pub open spec fn legs(ps: Seq<Posting>, a: BookAccount) -> nat
    decreases ps.len(),
{
    if ps.len() == 0 {
        0
    } else {
        legs(ps.drop_last(), a) + (if ps.last().debit == a {
            1nat
        } else {
            0nat
        }) + (if ps.last().credit == a {
            1nat
        } else {
            0nat
        })
    }
}

/// A version counts postings: after a sequence of postings, the version of
/// each account has grown by the number of debits and credits that touched
/// it, which is at most two for each posting.
pub proof fn law_versions_count_legs(book: Book, ps: Seq<Posting>)
    requires
        complete(book),
    ensures
        forall|a: BookAccount| (#[trigger] post_all(book, ps)[a]).version == book[a].version + legs(ps, a),
        forall|a: BookAccount| #[trigger] legs(ps, a) <= 2 * ps.len(),
    decreases ps.len(),
{
    if ps.len() > 0 {
        let before = post_all(book, ps.drop_last());
        law_versions_count_legs(book, ps.drop_last());
        law_postings_conserve_total(book, ps.drop_last());
        if ps.last().debit == ps.last().credit {
            law_posting_to_self(before, ps.last());
        } else {
            law_posting_moves_amount(before, ps.last());
        }
        assert forall|a: BookAccount| (#[trigger] post_all(book, ps)[a]).version == book[a].version + legs(
            ps,
            a,
        ) by {
            assert(before[a].version == book[a].version + legs(ps.drop_last(), a));
        }
        assert forall|a: BookAccount| #[trigger] legs(ps, a) <= 2 * ps.len() by {
            assert(legs(ps.drop_last(), a) <= 2 * ps.drop_last().len());
        }
    }
}

/// Where every version counter is at least two for each posting below its
/// end, the whole sequence leaves room in all of them.
pub proof fn law_room_for_small_versions(book: Book, ps: Seq<Posting>)
    requires
        complete(book),
        forall|a: BookAccount| (#[trigger] book[a]).version + 2 * ps.len() <= u32::MAX,
    ensures
        has_room(post_all(book, ps)),
{
    law_versions_count_legs(book, ps);
    assert forall|a: BookAccount| (#[trigger] post_all(book, ps)[a]).version <= u32::MAX by {
        assert(book[a].version + 2 * ps.len() <= u32::MAX);
        assert(legs(ps, a) <= 2 * ps.len());
    }
}

} // verus!
