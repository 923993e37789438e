use vstd::prelude::*;
use std::time::{Duration, Instant};

verus! {

/// A point in time of the monotonic clock, carried through as it is.
#[verifier::external_type_specification]
#[verifier::external_body]
pub struct ExInstant(Instant);

/// The current time (`Instant::now`); nothing is claimed of it.
#[verifier::external_body]
fn instant_now() -> Instant {
    Instant::now()
}

/// The time elapsed since `t` (`Instant::elapsed`); nothing is claimed of it, it
/// depends on the clock.
#[verifier::external_body]
fn elapsed(t: &Instant) -> Duration {
    t.elapsed()
}

/// The whole seconds of a span (`Duration::as_secs`). Nothing is claimed of the
/// number: it only serves to compare a span measured on the clock with one second.
#[verifier::external_body]
fn whole_secs(d: &Duration) -> u64 {
    d.as_secs()
}

/// Counts frames and reports how many there were each second.
pub struct FpsCounter {
    pub count: u32,
    pub timer: Instant,
}

impl Default for FpsCounter {
    fn default() -> (r: FpsCounter)
        ensures
            r.count == 0,
    {
        FpsCounter { count: 0, timer: instant_now() }
    }
}

impl FpsCounter {
    /// Counts a frame; once a second has passed since the timer started, returns the
    /// frames counted and restarts the count and the timer. The seconds are measured
    /// on the clock, so which of the two outcomes comes is not stated; each is as
    /// `tick_at` says for the seconds measured.
    pub fn tick(&mut self) -> (r: Option<u32>)
        requires
            old(self).count < u32::MAX,
        ensures
            r matches Some(n) ==> n == old(self).count + 1 && final(self).count == 0,
            r is None ==> final(self).count == old(self).count + 1 && final(self).timer == old(self).timer,
    {
        let secs = whole_secs(&elapsed(&self.timer));
        self.tick_at(secs, instant_now())
    }

    /// Counts a frame, `secs` whole seconds after the timer started: from one second on
    /// returns the frames counted, restarts the count and sets the timer to `now`;
    /// before that only counts.
    pub fn tick_at(&mut self, secs: u64, now: Instant) -> (r: Option<u32>)
        requires
            old(self).count < u32::MAX,
        ensures
            r is Some <==> secs >= 1,
            r matches Some(n) ==> n == old(self).count + 1 && final(self).count == 0 && final(self).timer == now,
            r is None ==> final(self).count == old(self).count + 1 && final(self).timer == old(self).timer,
    {
        self.count = self.count + 1;
        if secs >= 1 {
            let fps = self.count;
            self.timer = now;
            self.count = 0;
            Some(fps)
        } else {
            None
        }
    }
}

} // verus!
