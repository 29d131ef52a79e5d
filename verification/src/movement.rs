//! The entries that each business event implies.
//!
//! Every event becomes a short, ordered list of entries that share one
//! identifier and one time. The functions whose names end in `_at` take
//! both as arguments; the others draw a random identifier and read the
//! clock, and then do the same.

use crate::ledger::{postings, BookAccount, Entry};
use crate::money::{interchange_fee, Amount};
use crate::postings::Posting;
use crate::stamp::{fresh_id, now_utc};
use vstd::prelude::*;

verus! {

/// What issuing a card with `max_limit` posts: the permanent ceiling, then
/// the limit that can be spent.
pub open spec fn card_issued_postings(max_limit: nat) -> Seq<Posting> {
    seq![
        Posting {
            debit: BookAccount::AssetMaxCurrentLimit,
            credit: BookAccount::LiabilityMaxCurrentLimitCp,
            amount: max_limit,
        },
        Posting {
            debit: BookAccount::AssetCurrentLimit,
            credit: BookAccount::LiabilityCurrentLimitCp,
            amount: max_limit,
        },
    ]
}

/// What a purchase of `amount` posts: the settlement, the interchange fee
/// of two percent, and the limit that the purchase consumes.
pub open spec fn purchase_postings(amount: nat) -> Seq<Posting> {
    seq![
        Posting { debit: BookAccount::AssetSettled, credit: BookAccount::LiabilityPayable, amount: amount },
        Posting {
            debit: BookAccount::LiabilityPayable,
            credit: BookAccount::EquityInterchange,
            amount: interchange_fee(amount),
        },
        Posting {
            debit: BookAccount::LiabilityCurrentLimitCp,
            credit: BookAccount::AssetCurrentLimit,
            amount: amount,
        },
    ]
}

/// What closing a bill of `closed_amount` posts.
pub open spec fn closed_bill_postings(closed_amount: nat) -> Seq<Posting> {
    seq![
        Posting {
            debit: BookAccount::LiabilityReceivable,
            credit: BookAccount::AssetSettled,
            amount: closed_amount,
        },
    ]
}

/// What a payment of `payment_amount` posts: the limit that it restores,
/// then the money that reaches the bank.
pub open spec fn payment_postings(payment_amount: nat) -> Seq<Posting> {
    seq![
        Posting {
            debit: BookAccount::AssetCurrentLimit,
            credit: BookAccount::LiabilityCurrentLimitCp,
            amount: payment_amount,
        },
        Posting {
            debit: BookAccount::AssetTransitoryBank,
            credit: BookAccount::LiabilityReceivable,
            amount: payment_amount,
        },
    ]
}

/// Whether `entries` record one event: they post `ps` in order, share one
/// identifier and one time, and each carries `merchant`.
pub open spec fn is_event(entries: Seq<Entry>, ps: Seq<Posting>, merchant: Option<Seq<char>>) -> bool {
    &&& postings(entries) == ps
    &&& forall|i: int|
        0 <= i < entries.len() ==> {
            &&& (#[trigger] entries[i]).id == entries[0].id
            &&& entries[i].post_date == entries[0].post_date
            &&& entries[i].merchant_name() == merchant
        }
}

/// Whether every entry carries the identifier `id` and the time `post_date`.
pub open spec fn stamped(entries: Seq<Entry>, id: u128, post_date: i128) -> bool {
    forall|i: int|
        0 <= i < entries.len() ==> (#[trigger] entries[i]).id == id && entries[i].post_date == post_date
}

/// The two entries of a card issued with `max_limit`, under the given
/// identifier and time.
pub fn card_issued_at(id: u128, post_date: i128, max_limit: Amount) -> (entries: Vec<Entry>)
    ensures
        is_event(entries@, card_issued_postings(max_limit.cents as nat), None),
        stamped(entries@, id, post_date),
{
    let mut entries: Vec<Entry> = Vec::new();
    entries.push(
        Entry {
            id,
            amount: max_limit,
            debit_account: BookAccount::AssetMaxCurrentLimit,
            credit_account: BookAccount::LiabilityMaxCurrentLimitCp,
            post_date,
            merchant: None,
        },
    );
    entries.push(
        Entry {
            id,
            amount: max_limit,
            debit_account: BookAccount::AssetCurrentLimit,
            credit_account: BookAccount::LiabilityCurrentLimitCp,
            post_date,
            merchant: None,
        },
    );
    assert(postings(entries@) =~= card_issued_postings(max_limit.cents as nat));
    entries
}

/// The three entries of a purchase of `amount` at `merchant`, under the
/// given identifier and time. The fee is two percent of the amount, rounded
/// to cents, a tie going to the even cent.
pub fn purchase_at(id: u128, post_date: i128, merchant: String, amount: Amount) -> (entries: Vec<Entry>)
    ensures
        is_event(entries@, purchase_postings(amount.cents as nat), Some(merchant@)),
        stamped(entries@, id, post_date),
{
    let interchange = amount.interchange_fee();
    let mut entries: Vec<Entry> = Vec::new();
    entries.push(
        Entry {
            id,
            amount,
            debit_account: BookAccount::AssetSettled,
            credit_account: BookAccount::LiabilityPayable,
            post_date,
            merchant: Some(merchant.clone()),
        },
    );
    entries.push(
        Entry {
            id,
            amount: interchange,
            debit_account: BookAccount::LiabilityPayable,
            credit_account: BookAccount::EquityInterchange,
            post_date,
            merchant: Some(merchant.clone()),
        },
    );
    entries.push(
        Entry {
            id,
            amount,
            debit_account: BookAccount::LiabilityCurrentLimitCp,
            credit_account: BookAccount::AssetCurrentLimit,
            post_date,
            merchant: Some(merchant),
        },
    );
    assert(postings(entries@) =~= purchase_postings(amount.cents as nat));
    entries
}

/// The one entry of a bill closed at `closed_amount`, under the given
/// identifier and time.
pub fn closed_bill_at(id: u128, post_date: i128, closed_amount: Amount) -> (entries: Vec<Entry>)
    ensures
        is_event(entries@, closed_bill_postings(closed_amount.cents as nat), None),
        stamped(entries@, id, post_date),
{
    let mut entries: Vec<Entry> = Vec::new();
    entries.push(
        Entry {
            id,
            amount: closed_amount,
            debit_account: BookAccount::LiabilityReceivable,
            credit_account: BookAccount::AssetSettled,
            post_date,
            merchant: None,
        },
    );
    assert(postings(entries@) =~= closed_bill_postings(closed_amount.cents as nat));
    entries
}

/// The two entries of a payment of `payment_amount`, under the given
/// identifier and time.
pub fn payment_at(id: u128, post_date: i128, payment_amount: Amount) -> (entries: Vec<Entry>)
    ensures
        is_event(entries@, payment_postings(payment_amount.cents as nat), None),
        stamped(entries@, id, post_date),
{
    let mut entries: Vec<Entry> = Vec::new();
    entries.push(
        Entry {
            id,
            amount: payment_amount,
            debit_account: BookAccount::AssetCurrentLimit,
            credit_account: BookAccount::LiabilityCurrentLimitCp,
            post_date,
            merchant: None,
        },
    );
    entries.push(
        Entry {
            id,
            amount: payment_amount,
            debit_account: BookAccount::AssetTransitoryBank,
            credit_account: BookAccount::LiabilityReceivable,
            post_date,
            merchant: None,
        },
    );
    assert(postings(entries@) =~= payment_postings(payment_amount.cents as nat));
    entries
}

/// The entries of a card issued now with `max_limit`, under a new
/// identifier.
pub fn card_issued(max_limit: Amount) -> (entries: Vec<Entry>)
    ensures
        is_event(entries@, card_issued_postings(max_limit.cents as nat), None),
{
    let now = now_utc();
    let id = fresh_id();
    card_issued_at(id, now, max_limit)
}

/// The entries of a purchase of `amount` made now at `merchant`, under a
/// new identifier.
pub fn purchase(merchant: String, amount: Amount) -> (entries: Vec<Entry>)
    ensures
        is_event(entries@, purchase_postings(amount.cents as nat), Some(merchant@)),
{
    let now = now_utc();
    let id = fresh_id();
    purchase_at(id, now, merchant, amount)
}

/// The entry of a bill closed now at `closed_amount`, under a new
/// identifier.
pub fn closed_bill(closed_amount: Amount) -> (entries: Vec<Entry>)
    ensures
        is_event(entries@, closed_bill_postings(closed_amount.cents as nat), None),
{
    let now = now_utc();
    let id = fresh_id();
    closed_bill_at(id, now, closed_amount)
}

/// The entries of a payment of `payment_amount` made now, under a new
/// identifier.
pub fn payment(payment_amount: Amount) -> (entries: Vec<Entry>)
    ensures
        is_event(entries@, payment_postings(payment_amount.cents as nat), None),
{
    let now = now_utc();
    let id = fresh_id();
    payment_at(id, now, payment_amount)
}

} // verus!
