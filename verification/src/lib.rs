//! A double-entry ledger for a single credit card, with its proofs.
//!
//! The ledger issues a card, tracks its limit, books purchases, closes bills
//! and records payments. Every event becomes a few balanced entries
//! ([`movement`]); the entries are applied to a fixed chart of accounts and
//! appended to a journal ([`ledger`]). What postings do to the accounts is
//! stated and proved as mathematics in [`postings`]; sums of money and their
//! arithmetic are in [`money`] and [`decimal`], the violations that the
//! ledger reports in [`error`].
//!
//! Beside the ledger stand an account log that authorizes transactions
//! against a limit ([`authorizer`]), two linked stacks ([`first`], [`list`])
//! and three small state-keeping types ([`mario`], [`password_manager`],
//! [`pizza`]).

pub mod authorizer;
pub mod decimal;
pub mod error;
pub mod first;
pub mod ledger;
pub mod list;
pub mod mario;
pub mod money;
pub mod movement;
pub mod password_manager;
pub mod pizza;
pub mod postings;
mod stamp;
