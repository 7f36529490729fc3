use vstd::prelude::*;

verus! {

/// A one-shot deadline. Time is in milliseconds on a clock the caller reads.
#[derive(Copy, Clone, Debug, PartialEq, Eq, Structural)]
pub struct ResetTimer {
    /// When the timer was armed, if it is.
    pub armed_at: Option<u64>,
    /// How long after arming it fires.
    pub duration: u64,
    /// Whether it has fired since it was armed.
    pub fired: bool,
}

/// The timer has been armed, has not fired, and `now` lies at least its
/// duration after arming.
pub open spec fn due(t: ResetTimer, now: u64) -> bool {
    match t.armed_at {
        Some(at) => !t.fired && at <= now && now - at >= t.duration,
        None => false,
    }
}

/// Armed and not yet fired.
pub open spec fn pending(t: ResetTimer) -> bool {
    t.armed_at is Some && !t.fired
}

/// The timer after a poll at `now`, and whether that poll fired it.
pub open spec fn polled(t: ResetTimer, now: u64) -> (ResetTimer, bool) {
    if due(t, now) {
        (ResetTimer { fired: true, ..t }, true)
    } else {
        (t, false)
    }
}

/// The timer after `arm(now, duration)`: arming an armed timer changes
/// nothing.
pub open spec fn armed(t: ResetTimer, now: u64, duration: u64) -> ResetTimer {
    if t.armed_at is None {
        ResetTimer { armed_at: Some(now), duration, fired: false }
    } else {
        t
    }
}

pub open spec fn disarmed() -> ResetTimer {
    ResetTimer { armed_at: None, duration: 0, fired: false }
}

impl ResetTimer {
    /// A disarmed timer.
    pub fn new() -> (t: ResetTimer)
        ensures
            t == disarmed(),
    {
        ResetTimer { armed_at: None, duration: 0, fired: false }
    }

    /// Arms the timer at `now` to fire `duration` later, unless it is
    /// already armed.
    pub fn arm(&mut self, now: u64, duration: u64)
        ensures
            *final(self) == armed(*old(self), now, duration),
    {
        if self.armed_at.is_none() {
            self.armed_at = Some(now);
            self.duration = duration;
            self.fired = false;
        }
    }

    /// Disarms the timer, so that it can be armed again.
    pub fn disarm(&mut self)
        ensures
            *final(self) == disarmed(),
    {
        self.armed_at = None;
        self.duration = 0;
        self.fired = false;
    }

    /// Returns true, once, when the armed duration has elapsed at `now`.
    pub fn poll(&mut self, now: u64) -> (fired: bool)
        ensures
            (*final(self), fired) == polled(*old(self), now),
    {
        match self.armed_at {
            Some(at) => {
                if !self.fired && at <= now && now - at >= self.duration {
                    self.fired = true;
                    true
                } else {
                    false
                }
            },
            None => false,
        }
    }
}

/// A poll fires only once the armed duration has elapsed, and a timer that
/// has fired does not fire again until it is disarmed and armed anew.
pub proof fn lemma_fires_once(t: ResetTimer, now1: u64, now2: u64)
    ensures
        polled(t, now1).1 ==> t.armed_at is Some && now1 >= t.armed_at->0 + t.duration,
        polled(t, now1).1 ==> !polled(polled(t, now1).0, now2).1,
        polled(t, now1).1 ==> armed(polled(t, now1).0, now2, t.duration) == polled(t, now1).0,
{
}

} // verus!
