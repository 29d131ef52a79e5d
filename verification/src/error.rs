//! The business-rule violations that the ledger reports.

use vstd::prelude::*;

verus! {

/// One violated precondition of a ledger command.
#[derive(Debug, Clone, Copy, PartialEq, Eq, Structural)]
pub enum Result {
    /// The purchase is larger than the limit that is left.
    InsufficientLimit,
    /// The card was issued before.
    CardAlreadyIssued,
    /// No card has been issued yet.
    CardNotIssued,
    /// The card has not been activated yet.
    CardInactive,
    /// An entry names an account that the registry does not hold.
    BookAccountNonExistent,
    /// The purchase repeats the one that was journaled last.
    DoubleTransaction,
}

impl Result {
    /// The text that stands for each violation.
    pub open spec fn spec_code(self) -> Seq<char> {
        match self {
            Result::InsufficientLimit => "insufficient_limit"@,
            Result::CardAlreadyIssued => "card_already_issued"@,
            Result::CardNotIssued => "card_not_issued"@,
            Result::CardInactive => "card_inactive"@,
            Result::BookAccountNonExistent => "book_acount_nonexistent"@,
            Result::DoubleTransaction => "doubled_transaction"@,
        }
    }

    /// The violation as text, as it is shown to a user.
    pub fn code(&self) -> (text: String)
        ensures
            text@ == self.spec_code(),
    {
        match self {
            Result::InsufficientLimit => "insufficient_limit".to_string(),
            Result::CardAlreadyIssued => "card_already_issued".to_string(),
            Result::CardNotIssued => "card_not_issued".to_string(),
            Result::CardInactive => "card_inactive".to_string(),
            Result::BookAccountNonExistent => "book_acount_nonexistent".to_string(),
            Result::DoubleTransaction => "doubled_transaction".to_string(),
        }
    }
}

} // verus!
