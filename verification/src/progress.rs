//! The cadence of the wait for compaction, and the line that reports on it.
//!
//! Time is a reading of a monotonic clock in nanoseconds. The driver reads the clock; how
//! long the wait has lasted is computed from readings, never from a count of polls.
use vstd::prelude::*;

verus! {

/// The pause between two polls of the engine's counters, in milliseconds.
pub const POLL_INTERVAL_MILLIS: u64 = 100;

/// The time after which the next progress line is due, in nanoseconds: one second.
pub const NOTIFY_INTERVAL_NANOS: u64 = 1_000_000_000;

/// The time that passed from one clock reading to a later one. A reading that is not
/// later counts as no time at all.
pub open spec fn elapsed_between(earlier: u64, later: u64) -> u64 {
    if later >= earlier {
        (later - earlier) as u64
    } else {
        0
    }
}

/// Whether a progress line is due at `now`, the last one having been written at
/// `last_logged`: more than a second must have passed.
pub open spec fn notification_due(last_logged: u64, now: u64) -> bool {
    elapsed_between(last_logged, now) > NOTIFY_INTERVAL_NANOS
}

/// The text in which the standard library writes a `Duration` of this many nanoseconds
/// with `{:?}`: a decimal number in the largest fitting unit, such as `1.5s` or `250ms`.
pub uninterp spec fn elapsed_text(nanos: u64) -> Seq<char>;

/// The progress line for a wait that has lasted `nanos` nanoseconds.
pub open spec fn progress_line(prefix: Seq<char>, nanos: u64) -> Seq<char> {
    prefix + "still waiting for compaction (since "@ + elapsed_text(nanos) + ")"@
}

/// Computes the time between two clock readings.
pub fn elapsed(earlier: u64, later: u64) -> (nanos: u64)
    ensures
        nanos == elapsed_between(earlier, later),
{
    if later >= earlier {
        later - earlier
    } else {
        0
    }
}

/// Tells whether a progress line is due.
pub fn is_notification_due(last_logged: u64, now: u64) -> (due: bool)
    ensures
        due == notification_due(last_logged, now),
{
    elapsed(last_logged, now) > NOTIFY_INTERVAL_NANOS
}

/// Makes a `std::time::Duration` of `nanos` nanoseconds with `Duration::from_nanos` and
/// formats it with `{:?}`, that is with its `Debug` implementation in std.
///
/// Trusted. The contract says nothing of the text but its name, [`elapsed_text`]: the
/// text depends on the number alone.
#[verifier::external_body]
fn format_elapsed(nanos: u64) -> (text: String)
    ensures
        text@ == elapsed_text(nanos),
{
    format!("{:?}", std::time::Duration::from_nanos(nanos))
}

/// Writes the progress line for a wait that has lasted `elapsed` nanoseconds.
pub fn progress_message(prefix: &str, elapsed: u64) -> (line: String)
    ensures
        line@ == progress_line(prefix@, elapsed),
{
    let mut line = prefix.to_owned();
    line.append("still waiting for compaction (since ");
    let text = format_elapsed(elapsed);
    line.append(text.as_str());
    line.append(")");
    line
}

} // verus!
