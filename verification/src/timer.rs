//! The one-shot idle timer that guards one direction of a channel.

use vstd::prelude::*;

verus! {

/// A point on the driver's monotonic clock, in nanoseconds since an origin
/// that the driver picks.
pub type Instant = u64;

/// A length of time, in nanoseconds.
pub type Duration = u64;

/// What one look at a timer found.
#[derive(Clone, Copy, Debug, PartialEq, Eq, Structural)]
pub enum Verdict {
    /// The operation moved forward, so the idle clock starts afresh.
    Progress,
    /// The operation is pending and no deadline has been reached.
    Waiting,
    /// The operation is pending and its deadline has been reached.
    TimedOut,
}

/// The wake-up that goes with a deadline: the deadline itself where the
/// clock can reach it, and none where it lies beyond the clock's range.
pub open spec fn reachable(deadline: int) -> Option<Instant> {
    if 0 <= deadline <= u64::MAX {
        Some(deadline as u64)
    } else {
        None
    }
}

/// The state of a timer as contracts see it: the configured bound, and the
/// deadline that is pending while the timer is armed.
pub struct TimerView {
    /// The idle bound; `None` enforces no limit.
    pub timeout: Option<Duration>,
    /// `Some(d)` while armed with deadline `d`, `None` while disarmed.
    pub deadline: Option<int>,
}

impl TimerView {
    /// A disarmed timer that enforces no limit.
    pub open spec fn unset() -> TimerView {
        TimerView { timeout: None, deadline: None }
    }

    /// Whether a deadline is pending.
    pub open spec fn is_armed(self) -> bool {
        self.deadline is Some
    }

    /// The state after the bound is replaced: whatever was pending is gone.
    pub open spec fn with_timeout(self, timeout: Option<Duration>) -> TimerView {
        TimerView { timeout, deadline: None }
    }

    /// The state without its pending deadline; the bound stays.
    pub open spec fn disarm(self) -> TimerView {
        TimerView { deadline: None, ..self }
    }

    /// Arming on demand: a disarmed timer with a bound gets the deadline
    /// `now + bound`; an armed timer keeps the deadline it has.
    pub open spec fn arm(self, now: Instant) -> TimerView {
        match (self.timeout, self.deadline) {
            (Some(bound), None) => TimerView { deadline: Some(now + bound), ..self },
            _ => self,
        }
    }

    /// Whether the pending deadline has been reached at `now`.
    pub open spec fn expired(self, now: Instant) -> bool {
        self.deadline matches Some(d) && d <= now
    }

    /// The instant at which the driver has to look again, if the clock can
    /// reach the pending deadline at all.
    pub open spec fn wake_at(self) -> Option<Instant> {
        match self.deadline {
            Some(d) => reachable(d),
            None => None,
        }
    }

    /// What a look at `now` finds, given whether the guarded operation moved
    /// forward. Progress is looked at first, so an operation that completes
    /// at the very instant of its deadline is no timeout.
    pub open spec fn verdict(self, now: Instant, progressed: bool) -> Verdict {
        if progressed {
            Verdict::Progress
        } else if self.timeout is Some && self.arm(now).expired(now) {
            Verdict::TimedOut
        } else {
            Verdict::Waiting
        }
    }

    /// The state that the same look leaves behind: disarmed after progress
    /// and after firing, armed while the operation waits under a bound.
    pub open spec fn observe(self, now: Instant, progressed: bool) -> TimerView {
        match self.verdict(now, progressed) {
            Verdict::Progress => self.disarm(),
            Verdict::TimedOut => self.disarm(),
            Verdict::Waiting => self.arm(now),
        }
    }
}

/// A one-shot deadline timer: armed on demand, reset by progress, and
/// disarmed again once it has fired.
#[derive(Clone, Copy, Debug)]
pub struct IdleTimer {
    timeout: Option<Duration>,
    deadline: Option<u128>,
}

impl View for IdleTimer {
    type V = TimerView;

    closed spec fn view(&self) -> TimerView {
        TimerView {
            timeout: self.timeout,
            deadline: match self.deadline {
                Some(d) => Some(d as int),
                None => None,
            },
        }
    }
}

impl IdleTimer {
    /// A disarmed timer that enforces no limit.
    pub fn new() -> (timer: IdleTimer)
        ensures
            timer@ == TimerView::unset(),
    {
        IdleTimer { timeout: None, deadline: None }
    }

    /// The configured bound.
    pub fn timeout(&self) -> (bound: Option<Duration>)
        ensures
            bound == self@.timeout,
    {
        self.timeout
    }

    /// Replaces the bound and disarms the timer; the next look arms it again
    /// with the new bound.
    pub fn set_timeout(&mut self, timeout: Option<Duration>)
        ensures
            final(self)@ == old(self)@.with_timeout(timeout),
    {
        self.timeout = timeout;
        self.deadline = None;
    }

    /// Whether a deadline is pending.
    pub fn is_armed(&self) -> (armed: bool)
        ensures
            armed == self@.is_armed(),
    {
        self.deadline.is_some()
    }

    /// Arms the timer if it has a bound and is not armed yet.
    pub fn arm(&mut self, now: Instant)
        ensures
            final(self)@ == old(self)@.arm(now),
    {
        if self.deadline.is_none() {
            if let Some(bound) = self.timeout {
                self.deadline = Some(now as u128 + bound as u128);
            }
        }
    }

    /// Drops the pending deadline, if there is one; the bound stays.
    pub fn disarm(&mut self)
        ensures
            final(self)@ == old(self)@.disarm(),
    {
        self.deadline = None;
    }

    /// Whether the pending deadline has been reached at `now`.
    pub fn expired(&self, now: Instant) -> (fired: bool)
        ensures
            fired == self@.expired(now),
    {
        match self.deadline {
            Some(d) => d <= now as u128,
            None => false,
        }
    }

    /// The instant at which the driver has to look again.
    pub fn wake_at(&self) -> (at: Option<Instant>)
        ensures
            at == self@.wake_at(),
    {
        match self.deadline {
            Some(d) => if d <= u64::MAX as u128 { Some(d as u64) } else { None },
            None => None,
        }
    }

    /// One look at the timer at `now`, given whether the guarded operation
    /// moved forward.
    pub fn observe(&mut self, now: Instant, progressed: bool) -> (verdict: Verdict)
        ensures
            verdict == old(self)@.verdict(now, progressed),
            final(self)@ == old(self)@.observe(now, progressed),
    {
        if progressed {
            self.deadline = None;
            return Verdict::Progress;
        }
        if self.timeout.is_none() {
            return Verdict::Waiting;
        }
        self.arm(now);
        if self.expired(now) {
            self.deadline = None;
            Verdict::TimedOut
        } else {
            Verdict::Waiting
        }
    }
}

} // verus!
