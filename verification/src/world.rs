//! What the library takes from outside itself: the wall clock, fresh
//! identifiers and random draws. Nothing here can be predicted; each item
//! states only what holds of every value it can return.
use rand::Rng;
use vstd::prelude::*;

use crate::models::Timestamp;

verus! {

/// The latest instant `chrono` can represent (the end of year 262142),
/// in microseconds since the Unix epoch.
pub const LATEST_CLOCK_MICROS: i64 = 8_210_266_876_799_999_999i64;

/// The current time from `chrono::Utc::now()`, in microseconds since the
/// Unix epoch (`DateTime::timestamp_micros`). `Utc::now` measures from the
/// epoch and fails on a clock set before it, and a `DateTime<Utc>` never lies
/// past `DateTime::<Utc>::MAX_UTC`; so the value is between 0 and
/// [`LATEST_CLOCK_MICROS`]. Which instant it is, is not stated.
#[verifier::external_body]
pub(crate) fn clock_now() -> (t: Timestamp)
    ensures
        0 <= t <= LATEST_CLOCK_MICROS,
{
    chrono::Utc::now().timestamp_micros()
}

/// A fresh random identifier from `uuid::Uuid::new_v4()`, rendered by its
/// `Display` (the lower-case hyphenated form, 36 characters). Which
/// identifier it is, is not stated.
#[verifier::external_body]
pub(crate) fn fresh_id() -> (id: String)
    ensures
        id@.len() == 36,
{
    uuid::Uuid::new_v4().to_string()
}

/// A random index below `bound`, drawn with `rand::Rng::gen_range(0..bound)`
/// on the thread-local generator (`rand::thread_rng`). `gen_range` panics on an
/// empty range, hence the requirement. Which index it is, is not stated.
#[verifier::external_body]
pub(crate) fn random_below(bound: usize) -> (r: usize)
    requires
        bound > 0,
    ensures
        r < bound,
{
    rand::thread_rng().gen_range(0..bound)
}

} // verus!
