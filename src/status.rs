use vstd::prelude::*;

use std::time::{Duration, Instant};

verus! {

#[verifier::external_type_specification]
#[verifier::external_body]
pub struct ExInstant(Instant);

/// Relies on `Instant::now`: the current moment, of which nothing is known.
#[verifier::external_body]
fn now() -> (r: Instant) {
    Instant::now()
}

/// Relies on `Instant::elapsed`: the time since `t`, which depends on the clock.
#[verifier::external_body]
fn elapsed(t: &Instant) -> (r: Duration) {
    t.elapsed()
}

/// Relies on `Duration::as_secs`: the whole seconds of `d`.
#[verifier::external_body]
fn whole_seconds(d: &Duration) -> (r: u64) {
    d.as_secs()
}

/// How many whole seconds a message stays on screen.
pub const MESSAGE_SECONDS: u64 = 5;

/// A message for the user, with the moment it was set.
pub struct StatusMessage {
    pub text: Vec<char>,
    pub time: Instant,
}

impl StatusMessage {
    /// A message that starts showing now.
    pub fn from(message: Vec<char>) -> (r: StatusMessage)
        ensures
            r.text@ == message@,
    {
        StatusMessage { time: now(), text: message }
    }

    /// Whether the message is young enough to be shown; this depends on the
    /// clock alone.
    pub fn is_fresh(&self) -> bool {
        let age = elapsed(&self.time);
        shown_after(whole_seconds(&age))
    }
}

/// Whether a message that is `seconds` whole seconds old is still shown.
pub fn shown_after(seconds: u64) -> (r: bool)
    ensures
        r == (seconds < MESSAGE_SECONDS),
{
    seconds < MESSAGE_SECONDS
}

} // verus!
