//! Cleanup timers: one-shot countdowns in nanoseconds.

use vstd::prelude::*;

verus! {

/// The delay of the shared cleanup timer unless the host sets another: five
/// seconds, in nanoseconds.
pub const DEFAULT_CLEANUP_DELAY: u64 = 5_000_000_000;

/// Whether a one-shot timer of length `duration` that has run for `elapsed`
/// reaches its end when it is advanced by `delta`.
pub open spec fn expires(duration: u64, elapsed: u64, delta: u64) -> bool {
    elapsed + delta >= duration
}

/// How long a one-shot timer of length `duration` has run once it was
/// advanced from `elapsed` by `delta`: it stops at `duration`.
pub open spec fn advanced(duration: u64, elapsed: u64, delta: u64) -> int {
    if expires(duration, elapsed, delta) {
        duration as int
    } else {
        elapsed + delta
    }
}

/// Advances a one-shot `bevy::time::Timer` with `Timer::tick`.
///
/// The timer is made with `Timer::new` for `duration` nanoseconds in
/// `TimerMode::Once` and put at `elapsed` with `Timer::set_elapsed`; after the
/// tick by `delta` its `Timer::elapsed` and `Timer::just_finished` are handed
/// back. The contract claims what `tick` does to a running, unfinished
/// one-shot timer: the time run grows by `delta` and is capped at `duration`,
/// and the timer has just finished exactly if the cap was reached.
#[verifier::external_body]
fn tick_once(duration: u64, elapsed: u64, delta: u64) -> (r: (u64, bool))
    ensures
        r.0 == advanced(duration, elapsed, delta),
        r.1 == expires(duration, elapsed, delta),
{
    let mut timer = bevy::time::Timer::new(
        std::time::Duration::from_nanos(duration),
        bevy::time::TimerMode::Once,
    );
    timer.set_elapsed(std::time::Duration::from_nanos(elapsed));
    timer.tick(std::time::Duration::from_nanos(delta));
    (timer.elapsed().as_nanos() as u64, timer.just_finished())
}

/// A one-shot countdown that delays the cleanup of a bundle.
///
/// Both fields are in nanoseconds. The timer counts `elapsed` up towards
/// `duration`; it is idle while `elapsed` is zero.
#[derive(Clone, Copy, Debug, PartialEq, Eq, Structural)]
pub struct AssetCleanUpTimer {
    pub duration: u64,
    pub elapsed: u64,
}

impl AssetCleanUpTimer {
    /// The same timer with nothing counted.
    pub open spec fn rewound(self) -> Self {
        AssetCleanUpTimer { duration: self.duration, elapsed: 0 }
    }

    /// Whether a tick by `delta` brings this timer to its end.
    pub open spec fn fires(self, delta: u64) -> bool {
        expires(self.duration, self.elapsed, delta)
    }

    /// The timer after a tick by `delta`: rewound if the tick brings it to
    /// its end, and `delta` further on if not.
    pub open spec fn ticked(self, delta: u64) -> Self {
        if self.fires(delta) {
            self.rewound()
        } else {
            AssetCleanUpTimer { duration: self.duration, elapsed: (self.elapsed + delta) as u64 }
        }
    }

    /// A timer that runs for `duration` nanoseconds and has not started.
    pub fn new(duration: u64) -> (timer: Self)
        ensures
            timer == (AssetCleanUpTimer { duration, elapsed: 0 }),
    {
        AssetCleanUpTimer { duration, elapsed: 0 }
    }

    /// Advances the timer by `delta` nanoseconds and says whether this tick
    /// brought it to its end.
    pub fn tick(&mut self, delta: u64) -> (finished: bool)
        ensures
            finished == old(self).fires(delta),
            final(self).duration == old(self).duration,
            final(self).elapsed == advanced(old(self).duration, old(self).elapsed, delta),
    {
        let (elapsed, finished) = tick_once(self.duration, self.elapsed, delta);
        self.elapsed = elapsed;
        finished
    }

    /// Rewinds the timer for its next countdown.
    pub fn reset(&mut self)
        ensures
            *final(self) == old(self).rewound(),
    {
        self.elapsed = 0;
    }

    /// Advances the timer by `delta` nanoseconds; a timer that reaches its
    /// end is rewound at once. Says whether it reached its end.
    pub fn tick_and_rewind(&mut self, delta: u64) -> (finished: bool)
        ensures
            finished == old(self).fires(delta),
            *final(self) == old(self).ticked(delta),
    {
        let finished = self.tick(delta);
        if finished {
            self.reset();
        }
        finished
    }
}

/// The cleanup timer shared by every bundle that has no timer of its own.
#[derive(Clone, Copy, Debug)]
pub struct GlobalAssetCleanUpTimer(pub AssetCleanUpTimer);

impl Default for GlobalAssetCleanUpTimer {
    /// A shared timer with the default delay of five seconds.
    fn default() -> (timer: Self)
        ensures
            timer.0 == (AssetCleanUpTimer { duration: DEFAULT_CLEANUP_DELAY, elapsed: 0 }),
    {
        GlobalAssetCleanUpTimer(AssetCleanUpTimer::new(DEFAULT_CLEANUP_DELAY))
    }
}

} // verus!
