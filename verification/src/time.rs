//! Timestamps for records: microseconds since the Unix epoch, normalized so
//! that a record's `updated_at` never falls behind its `created_at` and grows
//! strictly on every successful mutation.

use vstd::prelude::*;

verus! {

/// Relies on chrono::Utc::now and chrono::DateTime::timestamp_micros: the
/// current time as microseconds since the Unix epoch. Nothing is promised of
/// the reading; verified callers normalize whatever comes back. (chrono
/// panics if the system clock is set before the epoch.)
#[verifier::external_body]
pub(crate) fn now_micros() -> i64 {
    chrono::Utc::now().timestamp_micros()
}

/// The timestamp a freshly created record carries for a clock reading `raw`:
/// the reading itself, clamped to be non-negative.
pub open spec fn creation_time(raw: i64) -> i64 {
    if raw < 0 {
        0
    } else {
        raw
    }
}

/// The timestamp a mutated record carries for a clock reading `raw` when its
/// previous `updated_at` was `prev`: the reading if it moved past `prev`,
/// else one tick past `prev`, so updates are strictly increasing even under
/// a stalled or rewound clock.
pub open spec fn bumped_time(raw: i64, prev: i64) -> i64 {
    if prev < raw {
        raw
    } else if prev < i64::MAX {
        (prev + 1) as i64
    } else {
        prev
    }
}

pub fn creation_timestamp(raw: i64) -> (t: i64)
    ensures
        t == creation_time(raw),
        t >= 0,
{
    if raw < 0 {
        0
    } else {
        raw
    }
}

pub fn bump_timestamp(raw: i64, prev: i64) -> (t: i64)
    ensures
        t == bumped_time(raw, prev),
        t >= prev,
        prev < i64::MAX ==> t > prev,
{
    if prev < raw {
        raw
    } else if prev < i64::MAX {
        prev + 1
    } else {
        prev
    }
}

} // verus!
