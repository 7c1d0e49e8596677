//! Wall-clock measurement for profiling and for the time a meter has been
//! active.

use vstd::prelude::*;
use crate::text::{decimal, decimal_text, padded, padded_text};
use vstd::string::*;

verus! {

/// `std::time::Instant`, a moment of the monotonic clock. Nothing of its
/// inside is known here.
#[verifier::external_type_specification]
#[verifier::external_body]
pub struct ExInstant(std::time::Instant);

/// `std::time::Instant::now`: the present moment of the monotonic clock.
/// Nothing is claimed of the value.
#[verifier::external_body]
fn now() -> (instant: std::time::Instant) {
    std::time::Instant::now()
}

/// `std::time::Instant::elapsed`: the time that went by since `instant`.
/// Nothing is claimed of the value.
#[verifier::external_body]
fn since(instant: &std::time::Instant) -> (elapsed: std::time::Duration) {
    instant.elapsed()
}

/// `std::time::Duration::as_nanos`: the span in whole nanoseconds. Nothing is
/// claimed of the value.
#[verifier::external_body]
fn nanos_of(span: &std::time::Duration) -> (nanos: u128) {
    span.as_nanos()
}

/// A stopwatch on the monotonic clock. What the clock shows cannot be told
/// in advance; how often the stopwatch was started over can.
pub struct Timer {
    pub instant: std::time::Instant,
    restarts: Ghost<nat>,
}

impl Timer {
    /// How often the timer was started over since it was made.
    pub closed spec fn restarts(&self) -> nat {
        self.restarts@
    }

    /// A timer that starts now.
    pub fn new() -> (timer: Timer)
        ensures
            timer.restarts() == 0,
    {
        Timer { instant: now(), restarts: Ghost(0) }
    }

    /// Starts the measurement over from now.
    pub fn reset(&mut self)
        ensures
            final(self).restarts() == old(self).restarts() + 1,
    {
        self.instant = now();
        self.restarts = Ghost((self.restarts@ + 1) as nat);
    }

    /// Whole nanoseconds since the timer was made or last reset.
    pub fn elapsed_nanos(&self) -> (nanos: u128) {
        let span = since(&self.instant);
        nanos_of(&span)
    }
}

/// Hundredths of a millisecond in `nanos`, rounded to the nearest, halves up.
pub open spec fn centi_millis(nanos: nat) -> nat {
    nanos / 10_000 + if nanos % 10_000 >= 5_000 { 1nat } else { 0nat }
}

/// A span in milliseconds with two decimals, such as `12.05`.
pub open spec fn millis_text(nanos: nat) -> Seq<char> {
    let c = centi_millis(nanos);
    decimal_text(c / 100) + seq!['.'] + padded_text(c % 100, 2)
}

/// Renders a span of `nanos` nanoseconds in milliseconds with two decimals.
pub fn format_millis(nanos: u128) -> (s: String)
    ensures
        s@ == millis_text(nanos as nat),
{
    let up: u128 = if nanos % 10_000 >= 5_000 { 1 } else { 0 };
    let c: u128 = nanos / 10_000 + up;
    let mut s = decimal(c / 100);
    proof {
        reveal_strlit(".");
    }
    s.append(".");
    let frac = padded(c % 100, 2);
    s.append(frac.as_str());
    assert(s@ =~= millis_text(nanos as nat));
    s
}

/// The log line for something that took `nanos` nanoseconds, such as
/// `Reset in 0.02ms.`.
pub open spec fn timed_text(label: Seq<char>, nanos: nat) -> Seq<char> {
    label + " in "@ + millis_text(nanos) + "ms."@
}

/// Puts together the log line for something that took `nanos` nanoseconds.
pub fn timed_line(label: &str, nanos: u128) -> (s: String)
    ensures
        s@ == timed_text(label@, nanos as nat),
{
    let mut s = String::from_str(label);
    s.append(" in ");
    let time = format_millis(nanos);
    s.append(time.as_str());
    s.append("ms.");
    s
}

} // verus!
