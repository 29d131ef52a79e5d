//! Where the identifier and the time of an event come from.
//!
//! Both are taken on trust from outside crates, and nothing is claimed of
//! either value: an identifier is random, and the time is the machine's.

use time::OffsetDateTime;
use uuid::Uuid;
use vstd::prelude::*;

verus! {

/// `Uuid::new_v4`, as its 128 bits. Trusted; any value may come back.
#[verifier::external_body]
pub(crate) fn fresh_id() -> (id: u128) {
    Uuid::new_v4().as_u128()
}

/// `OffsetDateTime::now_utc`, as nanoseconds since the Unix epoch. Trusted;
/// any value may come back.
#[verifier::external_body]
pub(crate) fn now_utc() -> (nanoseconds: i128) {
    OffsetDateTime::now_utc().unix_timestamp_nanos()
}

} // verus!
