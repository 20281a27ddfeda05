//! Calls into the outside crates whose results depend on chance or the clock. Nothing is
//! promised of them beyond what every outcome satisfies.

use vstd::prelude::*;

use chrono::Timelike;

use crate::model::{Id, Micros};

verus! {

/// A fresh random identifier: `uuid::Uuid::new_v4`, taken as its 128-bit value
/// (`Uuid::as_u128`). Claimed: the version nibble is 4 and the variant bits are `10`, as
/// `new_v4` masks them in; the other bits are random and nothing is said of them.
#[verifier::external_body]
pub(crate) fn new_id() -> (r: Id)
    ensures
        (r >> 76u128) & 0xfu128 == 4,
        (r >> 62u128) & 0x3u128 == 2,
{
    uuid::Uuid::new_v4().as_u128()
}

/// The current time: `chrono::Utc::now`, as microseconds since the Unix epoch
/// (`DateTime::timestamp_micros`). Nothing is claimed of the value.
#[verifier::external_body]
pub(crate) fn now_micros() -> Micros {
    chrono::Utc::now().timestamp_micros()
}

/// The hour of the local time of day: `chrono::Local::now` read through `Timelike::hour`,
/// which the crate documents as a number from 0 to 23. Only that range is claimed.
#[verifier::external_body]
pub(crate) fn local_hour() -> (h: u32)
    ensures
        h < 24,
{
    chrono::Local::now().hour()
}

} // verus!
