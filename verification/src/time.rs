//! Instants in UTC, read from the system clock and written out by `chrono`.
use vstd::prelude::*;
use chrono::{DateTime, Utc};

verus! {

/// An instant: whole seconds since the Unix epoch and the nanoseconds past that second.
#[derive(Clone, Copy, Debug)]
pub struct Timestamp {
    pub secs: i64,
    pub nanos: u32,
}

/// An instant that `Utc::now` can give: at or after the Unix epoch, with the nanoseconds
/// of a `Duration` (below one second), and one that `chrono` holds, so that every known
/// pattern writes it.
pub open spec fn clock_instant(t: Timestamp) -> bool {
    &&& t.secs >= 0
    &&& t.nanos < 1_000_000_000
    &&& forall|pattern: Seq<char>| known_pattern(pattern) ==> (#[trigger] utc_format(t.secs, t.nanos, pattern)) is Some
}

/// Reads the system clock through `Utc::now`. Which instant comes back depends on when
/// the call is made, and that is not stated. Claimed of every outcome, from `Utc::now`'s
/// source: it takes the time since the Unix epoch as a `Duration` (so whole seconds at or
/// above zero and fewer than `10^9` nanoseconds) and builds the `DateTime` with
/// `DateTime::from_timestamp(..).unwrap()`, so `from_timestamp` holds that instant again
/// (as its documentation's round trip shows) and every known pattern writes it.
/// (`Utc::now` panics where the system clock lies before the epoch.)
#[verifier::external_body]
fn clock_now() -> (r: Timestamp)
    ensures
        clock_instant(r),
{
    let now = Utc::now();
    Timestamp { secs: now.timestamp(), nanos: now.timestamp_subsec_nanos() }
}

/// The current instant: one at or after the Unix epoch, with fewer than `10^9`
/// nanoseconds, that every known pattern writes.
pub fn now() -> (r: Timestamp)
    ensures
        clock_instant(r),
{
    clock_now()
}

/// What `DateTime::<Utc>::from_timestamp(secs, nanos)` followed by `format(pattern)`
/// writes; `None` where `chrono` holds no such instant.
pub uninterp spec fn utc_format(secs: i64, nanos: u32, pattern: Seq<char>) -> Option<Seq<char>>;

/// The patterns the library writes instants with.
pub open spec fn known_pattern(pattern: Seq<char>) -> bool {
    pattern == "%H:%M:%S"@ || pattern == "%Y-%m-%d"@
}

/// Calls `DateTime::<Utc>::from_timestamp` and `DateTime::format`. Claims: the text is the
/// one named by `utc_format`. The pattern is one whose specifiers `chrono` knows, so that
/// writing it cannot fail.
#[verifier::external_body]
fn chrono_format(t: &Timestamp, pattern: &str) -> (r: Option<String>)
    requires
        known_pattern(pattern@),
    ensures
        r is Some <==> utc_format(t.secs, t.nanos, pattern@) is Some,
        r matches Some(s) ==> utc_format(t.secs, t.nanos, pattern@) == Some(s@),
{
    match DateTime::<Utc>::from_timestamp(t.secs, t.nanos) {
        Some(d) => Some(d.format(pattern).to_string()),
        None => None,
    }
}

/// The text of `utc_format`, or nothing where `chrono` holds no such instant.
pub open spec fn utc_text(t: Timestamp, pattern: Seq<char>) -> Seq<char> {
    match utc_format(t.secs, t.nanos, pattern) {
        Some(s) => s,
        None => Seq::empty(),
    }
}

impl Timestamp {
    /// The instant written with `pattern` (one of the patterns of `known_pattern`).
    pub fn format(&self, pattern: &str) -> (r: String)
        requires
            known_pattern(pattern@),
        ensures
            r@ == utc_text(*self, pattern@),
    {
        match chrono_format(self, pattern) {
            Some(s) => s,
            None => String::new(),
        }
    }
}

} // verus!
