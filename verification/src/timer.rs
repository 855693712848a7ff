//! One-shot timers and the short-lived markers built on them.

use vstd::prelude::*;

verus! {

/// How long the landing marker lasts: 0.15 s.
pub const LANDING_NANOS: u64 = 150_000_000;

/// How long the coyote grace window lasts: 0.2 s.
pub const COYOTE_NANOS: u64 = 200_000_000;

/// A one-shot timer that counts nanoseconds up to a fixed duration and then
/// stays finished until it is reset.
#[derive(Clone, Copy, Debug, PartialEq, Eq, Structural)]
pub struct Countdown {
    /// The time the timer runs for.
    pub duration: u64,
    /// The time that has run since the last reset, never past `duration`.
    pub elapsed: u64,
    /// Whether the timer has reached its duration since the last reset.
    pub finished: bool,
    /// Whether the timer reached its duration on the latest tick.
    pub just_finished: bool,
}

impl Countdown {
    /// A timer of `duration` nanoseconds on which no time has run yet.
    pub open spec fn spec_new(duration: u64) -> Countdown {
        Countdown { duration, elapsed: 0, finished: false, just_finished: false }
    }

    /// The elapsed time never passes the duration, a finished timer has
    /// run its whole duration, and only a finished timer has just finished.
    pub open spec fn wf(self) -> bool {
        &&& self.elapsed <= self.duration
        &&& self.finished ==> self.elapsed == self.duration
        &&& self.just_finished ==> self.finished
    }

    /// Whether `delta` more nanoseconds bring the elapsed time to the
    /// duration.
    pub open spec fn reaches(self, delta: u64) -> bool {
        self.elapsed + delta >= self.duration
    }

    /// The timer after `delta` more nanoseconds. A finished timer keeps
    /// its elapsed time; an unfinished one stops at its duration.
    pub open spec fn spec_tick(self, delta: u64) -> Countdown {
        if self.finished {
            Countdown { just_finished: false, ..self }
        } else if self.reaches(delta) {
            Countdown { elapsed: self.duration, finished: true, just_finished: true, ..self }
        } else {
            Countdown { elapsed: (self.elapsed + delta) as u64, just_finished: false, ..self }
        }
    }

    /// The time still to run.
    pub open spec fn spec_remaining(self) -> u64 {
        if self.elapsed >= self.duration {
            0
        } else {
            (self.duration - self.elapsed) as u64
        }
    }

    /// A fresh timer of `duration` nanoseconds.
    pub fn new(duration: u64) -> (t: Countdown)
        ensures
            t == Countdown::spec_new(duration),
            t.wf(),
    {
        Countdown { duration, elapsed: 0, finished: false, just_finished: false }
    }

    /// Whether the timer has reached its duration since it was last reset.
    pub fn finished(&self) -> (r: bool)
        ensures
            r == self.finished,
    {
        self.finished
    }

    /// Whether the timer reached its duration on the latest tick.
    pub fn just_finished(&self) -> (r: bool)
        ensures
            r == self.just_finished,
    {
        self.just_finished
    }

    /// The time still to run, in nanoseconds.
    pub fn remaining(&self) -> (r: u64)
        ensures
            r == self.spec_remaining(),
    {
        if self.elapsed >= self.duration {
            0
        } else {
            self.duration - self.elapsed
        }
    }

    /// Advances the timer by `delta` nanoseconds.
    pub fn tick(&mut self, delta: u64)
        ensures
            *final(self) == old(self).spec_tick(delta),
            old(self).wf() ==> final(self).wf(),
    {
        if self.finished {
            self.just_finished = false;
        } else if self.elapsed >= self.duration || delta >= self.duration - self.elapsed {
            self.elapsed = self.duration;
            self.finished = true;
            self.just_finished = true;
        } else {
            self.elapsed = self.elapsed + delta;
            self.just_finished = false;
        }
    }

    /// Starts the timer over, with the same duration.
    pub fn reset(&mut self)
        ensures
            *final(self) == Countdown::spec_new(old(self).duration),
            final(self).wf(),
    {
        self.elapsed = 0;
        self.finished = false;
        self.just_finished = false;
    }
}

/// Marks an entity as busy for a chosen time.
#[derive(Clone, Copy, Debug, PartialEq, Eq, Structural)]
pub struct Busy(pub Countdown);

impl Busy {
    /// A marker that lasts `nanos` nanoseconds.
    pub fn new(nanos: u64) -> (b: Busy)
        ensures
            b.0 == Countdown::spec_new(nanos),
    {
        Busy(Countdown::new(nanos))
    }

    pub fn tick(&mut self, delta: u64)
        ensures
            final(self).0 == old(self).0.spec_tick(delta),
    {
        self.0.tick(delta);
    }

    pub fn finished(&self) -> (r: bool)
        ensures
            r == self.0.finished,
    {
        self.0.finished()
    }
}

/// Marks the short window right after touching down, during which the jump
/// stage is kept.
#[derive(Clone, Copy, Debug, PartialEq, Eq, Structural)]
pub struct Landing(pub Countdown);

impl Landing {
    pub fn new() -> (l: Landing)
        ensures
            l.0 == Countdown::spec_new(LANDING_NANOS),
    {
        Landing(Countdown::new(LANDING_NANOS))
    }

    pub fn tick(&mut self, delta: u64)
        ensures
            final(self).0 == old(self).0.spec_tick(delta),
    {
        self.0.tick(delta);
    }

    pub fn finished(&self) -> (r: bool)
        ensures
            r == self.0.finished,
    {
        self.0.finished()
    }
}

/// The grace window after leaving the ground in which a jump still counts.
#[derive(Clone, Copy, Debug, PartialEq, Eq, Structural)]
pub struct Coyote(pub Countdown);

impl Coyote {
    pub fn new() -> (c: Coyote)
        ensures
            c.0 == Countdown::spec_new(COYOTE_NANOS),
    {
        Coyote(Countdown::new(COYOTE_NANOS))
    }

    pub fn tick(&mut self, delta: u64)
        ensures
            final(self).0 == old(self).0.spec_tick(delta),
    {
        self.0.tick(delta);
    }

    pub fn finished(&self) -> (r: bool)
        ensures
            r == self.0.finished,
    {
        self.0.finished()
    }
}

/// What is left of a self-removing marker after `delta` more nanoseconds:
/// nothing once its timer has finished, else the ticked timer.
pub open spec fn spec_expire(marker: Option<Countdown>, delta: u64) -> Option<Countdown> {
    match marker {
        Some(t) => if t.spec_tick(delta).finished {
            None
        } else {
            Some(t.spec_tick(delta))
        },
        None => None,
    }
}

/// Ticks a self-removing marker and drops it once its timer has finished.
pub fn expire(marker: Option<Countdown>, delta: u64) -> (r: Option<Countdown>)
    ensures
        r == spec_expire(marker, delta),
{
    match marker {
        Some(t) => {
            let mut ticked = t;
            ticked.tick(delta);
            if ticked.finished() {
                None
            } else {
                Some(ticked)
            }
        },
        None => None,
    }
}

/// The busy marker after `delta` more nanoseconds: gone once it has run
/// out.
pub open spec fn spec_handle_busy(busy: Option<Busy>, delta: u64) -> Option<Busy> {
    match spec_expire(busy_timer(busy), delta) {
        Some(t) => Some(Busy(t)),
        None => None,
    }
}

/// The landing marker after `delta` more nanoseconds: gone once it has run
/// out.
pub open spec fn spec_handle_landing(landing: Option<Landing>, delta: u64) -> Option<Landing> {
    match spec_expire(landing_timer(landing), delta) {
        Some(t) => Some(Landing(t)),
        None => None,
    }
}

/// Ticks the busy marker, if there is one, and removes it when it runs out.
pub fn handle_busy(busy: &mut Option<Busy>, delta: u64)
    ensures
        *final(busy) == spec_handle_busy(*old(busy), delta),
{
    let ticked = expire(
        match *busy {
            Some(b) => Some(b.0),
            None => None,
        },
        delta,
    );
    *busy = match ticked {
        Some(t) => Some(Busy(t)),
        None => None,
    };
}

/// Ticks the landing marker, if there is one, and removes it when it runs
/// out.
pub fn handle_landing(landing: &mut Option<Landing>, delta: u64)
    ensures
        *final(landing) == spec_handle_landing(*old(landing), delta),
{
    let ticked = expire(
        match *landing {
            Some(l) => Some(l.0),
            None => None,
        },
        delta,
    );
    *landing = match ticked {
        Some(t) => Some(Landing(t)),
        None => None,
    };
}

/// The timer inside an optional busy marker.
pub open spec fn busy_timer(busy: Option<Busy>) -> Option<Countdown> {
    match busy {
        Some(b) => Some(b.0),
        None => None,
    }
}

/// The timer inside an optional landing marker.
pub open spec fn landing_timer(landing: Option<Landing>) -> Option<Countdown> {
    match landing {
        Some(l) => Some(l.0),
        None => None,
    }
}

} // verus!
