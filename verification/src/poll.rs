//! The two sides of one attempt: what the channel underneath answered, and
//! what the caller of this layer is told.

use vstd::prelude::*;
use crate::error::Error;
use crate::timer::{IdleTimer, Instant, TimerView, Verdict};

verus! {

/// What the inner channel, or the inner connector, answered to one
/// non-blocking attempt.
#[derive(Clone, Debug, PartialEq, Eq)]
pub enum Polled<T, E> {
    /// Nothing yet: the attempt would block.
    Pending,
    /// The attempt went through. For a read this includes the empty read
    /// that signals the end of the stream.
    Ready(T),
    /// The attempt failed.
    Failed(E),
}

impl<T, E> Polled<T, E> {
    /// Whether the attempt completed, successfully or not.
    pub open spec fn progressed(self) -> bool {
        !(self is Pending)
    }

    /// Whether the attempt completed, successfully or not.
    pub fn is_progress(&self) -> (yes: bool)
        ensures
            yes == self.progressed(),
    {
        match self {
            Polled::Pending => false,
            _ => true,
        }
    }
}

/// What the caller of this layer is told about one attempt.
#[derive(Clone, Debug, PartialEq, Eq)]
pub enum Outcome<T, E> {
    /// The attempt is still pending. The caller suspends until the channel is
    /// ready again or the clock reaches `wake_at`, whichever comes first;
    /// with no `wake_at` only the channel can end the wait.
    Pending { wake_at: Option<Instant> },
    /// The attempt went through, with what the channel delivered.
    Ready(T),
    /// The attempt failed.
    Failed(Error<E>),
}

impl<T, E> Outcome<T, E> {
    /// What an attempt guarded by `timer` comes to at `now`. A completed
    /// attempt is handed on as it is, whatever the clock says; a pending one
    /// fails with `on_timeout` if the timer's verdict is a timeout, and
    /// otherwise stays pending until the deadline that the look leaves armed.
    pub open spec fn guarded(
        timer: TimerView,
        now: Instant,
        polled: Polled<T, E>,
        on_timeout: Error<E>,
    ) -> Outcome<T, E> {
        match polled {
            Polled::Ready(value) => Outcome::Ready(value),
            Polled::Failed(e) => Outcome::Failed(Error::ChannelError(e)),
            Polled::Pending => match timer.verdict(now, false) {
                Verdict::TimedOut => Outcome::Failed(on_timeout),
                _ => Outcome::Pending { wake_at: timer.observe(now, false).wake_at() },
            },
        }
    }

    /// What an attempt that no timer guards comes to.
    pub open spec fn forwarded(polled: Polled<T, E>) -> Outcome<T, E> {
        match polled {
            Polled::Ready(value) => Outcome::Ready(value),
            Polled::Failed(e) => Outcome::Failed(Error::ChannelError(e)),
            Polled::Pending => Outcome::Pending { wake_at: None },
        }
    }
}

/// Decides one attempt that `timer` guards: looks at what the channel
/// answered first and at the clock second, and leaves the timer disarmed
/// unless the attempt goes on waiting under a bound.
pub fn guard<T, E>(
    timer: &mut IdleTimer,
    now: Instant,
    polled: Polled<T, E>,
    on_timeout: Error<E>,
) -> (out: Outcome<T, E>)
    ensures
        out == Outcome::guarded(old(timer)@, now, polled, on_timeout),
        final(timer)@ == old(timer)@.observe(now, polled.progressed()),
{
    match polled {
        Polled::Ready(value) => {
            timer.disarm();
            Outcome::Ready(value)
        },
        Polled::Failed(e) => {
            timer.disarm();
            Outcome::Failed(Error::ChannelError(e))
        },
        Polled::Pending => match timer.observe(now, false) {
            Verdict::TimedOut => Outcome::Failed(on_timeout),
            _ => Outcome::Pending { wake_at: timer.wake_at() },
        },
    }
}

/// Hands one attempt on that no timer guards.
pub fn forward<T, E>(polled: Polled<T, E>) -> (out: Outcome<T, E>)
    ensures
        out == Outcome::<T, E>::forwarded(polled),
{
    match polled {
        Polled::Ready(value) => Outcome::Ready(value),
        Polled::Failed(e) => Outcome::Failed(Error::ChannelError(e)),
        Polled::Pending => Outcome::Pending { wake_at: None },
    }
}

} // verus!
