//! The wall clock, as std offers it. Nothing is known of what it reads.

use std::time::{Duration, SystemTime, SystemTimeError};
use vstd::prelude::*;

verus! {

/// std's `SystemTime`, carried through as an opaque value.
#[verifier::external_type_specification]
#[verifier::external_body]
pub struct ExSystemTime(SystemTime);

/// std's `SystemTimeError`, the failure of a clock comparison.
#[verifier::external_type_specification]
#[verifier::external_body]
pub struct ExSystemTimeError(SystemTimeError);

/// `SystemTime::now` reads the clock: nothing is claimed of the instant it returns.
pub assume_specification[ SystemTime::now ]() -> (instant: SystemTime);

/// `SystemTime::elapsed` compares an instant with the clock's present reading. It fails where
/// the clock reads earlier than the instant; nothing is claimed of which outcome comes, nor of
/// the span.
pub assume_specification[ SystemTime::elapsed ](instant: &SystemTime) -> (span: Result<
    Duration,
    SystemTimeError,
>);

/// The whole seconds that a span holds: what `Duration::as_secs` returns for it.
pub uninterp spec fn whole_seconds(span: Duration) -> u64;

/// `Duration::as_secs` gives the whole seconds of a span. They depend on the span alone, so
/// the result is [`whole_seconds`] of it; the span is opaque here, and no more is claimed.
pub assume_specification[ Duration::as_secs ](span: &Duration) -> (seconds: u64)
    ensures
        seconds == whole_seconds(*span),
;

/// The whole seconds that the clock counts since `start`, or `None` where the clock cannot be
/// compared with it.
pub(crate) fn seconds_since(start: &SystemTime) -> (reading: Option<u64>) {
    reading_of(start.elapsed())
}

/// The reading that the outcome of a comparison with the clock stands for.
pub open spec fn reading_for(elapsed: Result<Duration, SystemTimeError>) -> Option<u64> {
    match elapsed {
        Ok(span) => Some(whole_seconds(span)),
        Err(_) => None,
    }
}

/// The reading that a comparison with the clock stands for: the whole seconds of the span
/// where the comparison succeeded, and `None`, never a number, where it failed.
pub fn reading_of(elapsed: Result<Duration, SystemTimeError>) -> (reading: Option<u64>)
    ensures
        reading == reading_for(elapsed),
{
    match elapsed {
        Ok(span) => Some(span.as_secs()),
        Err(_) => None,
    }
}

} // verus!
