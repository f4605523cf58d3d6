//! The library's only unverified seams: reading the wall clock and drawing
//! entropy. Everything computed from these readings is verified for every
//! value they could return.

use crate::notion::ClockParts;
use crate::rate_limit::{JITTER_MAX_PERMILLE, JITTER_MIN_PERMILLE};
use chrono::{Datelike, Timelike};
use vstd::arithmetic::div_mod::lemma_mod_bound;
use vstd::prelude::*;

verus! {

/// Relies on chrono's `Utc::now` and `DateTime::timestamp_millis`: the wall
/// clock as milliseconds since the epoch, negative before it. Nothing can
/// be promised of a clock reading.
#[verifier::external_body]
fn utc_now_raw_millis() -> i64 {
    chrono::Utc::now().timestamp_millis()
}

/// The wall clock as milliseconds since the epoch, clamped to zero for
/// readings before the epoch, so that every timestamp the library keeps is
/// unsigned.
pub fn now_millis() -> u64 {
    let raw = utc_now_raw_millis();
    if raw >= 0 {
        raw as u64
    } else {
        0
    }
}

/// Relies on `rand::random`: one draw from the thread-local generator.
/// Nothing can be promised of a random value.
#[verifier::external_body]
fn random_u64() -> u64 {
    rand::random::<u64>()
}

/// A jitter factor for one backoff computation, drawn within the accepted
/// band (a quarter below to a quarter above the base).
pub fn jitter_permille() -> (j: u64)
    ensures
        JITTER_MIN_PERMILLE <= j < JITTER_MAX_PERMILLE,
{
    let r = random_u64();
    proof {
        lemma_mod_bound(r as int, 500);
    }
    750 + r % 500
}

/// Relies on chrono's `Local::now` with the `Datelike` and `Timelike`
/// accessors: the month is 1 through 12, the day 1 through 31, the hour 0
/// through 23, the minute and second 0 through 59.
#[verifier::external_body]
fn local_now_raw() -> (r: (i32, u32, u32, u32, u32, u32))
    ensures
        1 <= r.1 <= 12,
        1 <= r.2 <= 31,
        r.3 <= 23,
        r.4 <= 59,
        r.5 <= 59,
{
    let now = chrono::Local::now();
    (now.year(), now.month(), now.day(), now.hour(), now.minute(), now.second())
}

/// The local wall clock, read once, as the parts the note timestamp shows.
pub fn local_clock_parts() -> (c: ClockParts)
    ensures
        c.wf(),
{
    let (year, month, day, hour, minute, second) = local_now_raw();
    ClockParts { year, month, day, hour, minute, second }
}

} // verus!
