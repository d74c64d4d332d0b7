use vstd::prelude::*;
use std::time::{Duration, Instant};

verus! {

#[verifier::external_type_specification]
#[verifier::external_body]
pub struct ExInstant(Instant);

/// The whole nanoseconds that a duration holds.
pub uninterp spec fn duration_nanos(d: Duration) -> u128;

/// `Instant::now`: the current time; nothing is claimed of it.
#[verifier::external_body]
fn instant_now() -> Instant {
    Instant::now()
}

/// `Instant::elapsed`: the time since an instant; it depends on the clock,
/// so nothing is claimed of it.
#[verifier::external_body]
fn elapsed_since(since: &Instant) -> Duration {
    since.elapsed()
}

/// `Duration::as_nanos`: the whole nanoseconds of a duration.
#[verifier::external_body]
fn nanos_of(d: &Duration) -> (res: u128)
    ensures
        res == duration_nanos(*d),
{
    d.as_nanos()
}

/// `Duration::from_millis`: a duration of that many milliseconds, as the
/// documentation of `Duration` states.
#[verifier::external_body]
fn duration_from_millis(millis: u64) -> (res: Duration)
    ensures
        duration_nanos(res) == millis as u128 * 1_000_000,
{
    Duration::from_millis(millis)
}

/// One second, the period of most of the project's loops.
pub fn timeout_1s() -> (res: Duration)
    ensures
        duration_nanos(res) == 1_000_000_000,
{
    duration_from_millis(1000)
}

/// A duration of `count` milliseconds.
pub fn millis(count: u64) -> (res: Duration)
    ensures
        duration_nanos(res) == count as u128 * 1_000_000,
{
    duration_from_millis(count)
}

/// Law: a frame is over exactly when nothing is left of it.
pub proof fn lemma_due_when_nothing_left(elapsed_nanos: u128, frame_nanos: u128)
    ensures
        (elapsed_nanos >= frame_nanos) <==> (if elapsed_nanos < frame_nanos {
            (frame_nanos - elapsed_nanos) as u128
        } else {
            0u128
        }) == 0,
{
}

/// Paces a loop: a frame lasts `frame_duration` from `last_update`.
pub struct Timer {
    pub frame_duration: Duration,
    pub last_update: Instant,
}

impl Timer {
    /// A timer whose first frame starts now.
    pub fn new(frame_duration: Duration) -> (res: Self)
        ensures
            res.frame_duration == frame_duration,
    {
        Timer { frame_duration, last_update: instant_now() }
    }

    /// Whether a frame is over after `elapsed_nanos` nanoseconds.
    pub fn due(&self, elapsed_nanos: u128) -> (res: bool)
        ensures
            res == (elapsed_nanos >= duration_nanos(self.frame_duration)),
    {
        elapsed_nanos >= nanos_of(&self.frame_duration)
    }

    /// How long is left of the frame after `elapsed_nanos` nanoseconds.
    pub fn remaining_nanos(&self, elapsed_nanos: u128) -> (res: u128)
        ensures
            res == if elapsed_nanos < duration_nanos(self.frame_duration) {
                (duration_nanos(self.frame_duration) - elapsed_nanos) as u128
            } else {
                0
            },
    {
        let frame = nanos_of(&self.frame_duration);
        if elapsed_nanos < frame {
            frame - elapsed_nanos
        } else {
            0
        }
    }

    /// The nanoseconds since the frame started.
    pub fn elapsed_nanos(&self) -> u128 {
        nanos_of(&elapsed_since(&self.last_update))
    }

    /// Starts a new frame now.
    pub fn restart(&mut self)
        ensures
            final(self).frame_duration == old(self).frame_duration,
    {
        self.last_update = instant_now();
    }

    /// Whether the frame is over; if so a new frame starts now. When it
    /// returns `false` the timer is unchanged. Whether the frame is over
    /// depends on the clock (see `due` for the decision on a given time);
    /// a frame of no length is always over.
    pub fn check(&mut self) -> (res: bool)
        ensures
            final(self).frame_duration == old(self).frame_duration,
            !res ==> *final(self) == *old(self),
            duration_nanos(old(self).frame_duration) == 0 ==> res,
    {
        let elapsed = self.elapsed_nanos();
        if self.due(elapsed) {
            self.restart();
            true
        } else {
            false
        }
    }
}

} // verus!
