//! The channel wrapper: one inner channel and an idle timer for each of its
//! two directions.

use vstd::prelude::*;
use crate::error::Error;
use crate::poll::{forward, guard, Outcome, Polled};
use crate::timer::{Duration, IdleTimer, Instant, TimerView};

verus! {

/// One of the two directions of a duplex channel.
#[derive(Clone, Copy, Debug, PartialEq, Eq, Structural)]
pub enum Direction {
    Read,
    Write,
}

impl Direction {
    /// The failure that stands for a missed deadline of this direction.
    pub open spec fn timeout_error<E>(self) -> Error<E> {
        match self {
            Direction::Read => Error::ReadTimeout,
            Direction::Write => Error::WriteTimeout,
        }
    }

    /// The failure that stands for a missed deadline of this direction.
    pub fn on_timeout<E>(self) -> (error: Error<E>)
        ensures
            error == self.timeout_error::<E>(),
    {
        match self {
            Direction::Read => Error::ReadTimeout,
            Direction::Write => Error::WriteTimeout,
        }
    }
}

/// A wrapped channel as contracts see it.
pub struct StreamView<S> {
    /// The inner channel.
    pub inner: S,
    /// The timer that guards reads.
    pub read: TimerView,
    /// The timer that guards writes.
    pub write: TimerView,
}

impl<S> StreamView<S> {
    /// A channel that was just wrapped: no bound and nothing armed in either
    /// direction.
    pub open spec fn fresh(inner: S) -> StreamView<S> {
        StreamView { inner, read: TimerView::unset(), write: TimerView::unset() }
    }

    /// A channel that was just wrapped and given its two bounds.
    pub open spec fn primed(
        inner: S,
        read_timeout: Option<Duration>,
        write_timeout: Option<Duration>,
    ) -> StreamView<S> {
        StreamView {
            inner,
            read: TimerView::unset().with_timeout(read_timeout),
            write: TimerView::unset().with_timeout(write_timeout),
        }
    }

    /// The timer that guards `direction`.
    pub open spec fn timer(self, direction: Direction) -> TimerView {
        match direction {
            Direction::Read => self.read,
            Direction::Write => self.write,
        }
    }

    /// The same channel with `timer` in the place of the timer that guards
    /// `direction`; the other timer and the inner channel stay.
    pub open spec fn with_timer(self, direction: Direction, timer: TimerView) -> StreamView<S> {
        match direction {
            Direction::Read => StreamView { read: timer, ..self },
            Direction::Write => StreamView { write: timer, ..self },
        }
    }

    /// What an attempt in `direction` at `now` comes to, given what the
    /// inner channel answered: see [`Outcome::guarded`].
    pub open spec fn outcome<T, E>(
        self,
        direction: Direction,
        now: Instant,
        polled: Polled<T, E>,
    ) -> Outcome<T, E> {
        Outcome::guarded(self.timer(direction), now, polled, direction.timeout_error())
    }

    /// The state after an attempt in `direction` at `now`: the timer of
    /// that direction has been looked at, nothing else has moved.
    pub open spec fn after(
        self,
        direction: Direction,
        now: Instant,
        progressed: bool,
    ) -> StreamView<S> {
        self.with_timer(direction, self.timer(direction).observe(now, progressed))
    }
}

/// A duplex channel with a read-idle and a write-idle timeout.
///
/// The wrapper owns the inner channel and the two timers. It never touches
/// the channel itself: the driver makes each attempt on the channel and
/// reports the answer here.
#[derive(Debug)]
pub struct TimeoutConnectorStream<S> {
    stream: S,
    read: IdleTimer,
    write: IdleTimer,
}

impl<S> View for TimeoutConnectorStream<S> {
    type V = StreamView<S>;

    closed spec fn view(&self) -> StreamView<S> {
        StreamView { inner: self.stream, read: self.read@, write: self.write@ }
    }
}

impl<S> TimeoutConnectorStream<S> {
    /// Wraps `stream`. There is initially no read or write timeout.
    pub fn new(stream: S) -> (wrapped: TimeoutConnectorStream<S>)
        ensures
            wrapped@ == StreamView::fresh(stream),
    {
        TimeoutConnectorStream { stream, read: IdleTimer::new(), write: IdleTimer::new() }
    }

    /// Returns the current read timeout.
    pub fn read_timeout(&self) -> (timeout: Option<Duration>)
        ensures
            timeout == self@.read.timeout,
    {
        self.read.timeout()
    }

    /// Sets the read timeout.
    ///
    /// This disarms a pending read deadline; the next read attempt arms the
    /// timer again with the new value.
    pub fn set_read_timeout(&mut self, timeout: Option<Duration>)
        ensures
            final(self)@ == old(self)@.with_timer(
                Direction::Read,
                old(self)@.read.with_timeout(timeout),
            ),
    {
        self.read.set_timeout(timeout);
    }

    /// Returns the current write timeout.
    pub fn write_timeout(&self) -> (timeout: Option<Duration>)
        ensures
            timeout == self@.write.timeout,
    {
        self.write.timeout()
    }

    /// Sets the write timeout.
    ///
    /// This disarms a pending write deadline; the next write attempt arms the
    /// timer again with the new value.
    pub fn set_write_timeout(&mut self, timeout: Option<Duration>)
        ensures
            final(self)@ == old(self)@.with_timer(
                Direction::Write,
                old(self)@.write.with_timeout(timeout),
            ),
    {
        self.write.set_timeout(timeout);
    }

    /// Returns a shared reference to the inner stream.
    pub fn get_ref(&self) -> (inner: &S)
        ensures
            *inner == self@.inner,
    {
        &self.stream
    }

    /// Returns a mutable reference to the inner stream. The timers stay as
    /// they are, whatever the caller does to the stream.
    pub fn get_mut(&mut self) -> (inner: &mut S)
        ensures
            *inner == old(self)@.inner,
            final(self)@ == (StreamView { inner: *final(inner), ..old(self)@ }),
    {
        &mut self.stream
    }

    /// Consumes the wrapper, returning the inner stream.
    pub fn into_inner(self) -> (inner: S)
        ensures
            inner == self@.inner,
    {
        self.stream
    }

    /// Decides an attempt in `direction` made at `now`, to which the inner
    /// channel answered `polled`.
    ///
    /// The answer is looked at first: whatever the channel delivered, or
    /// failed with, is handed on, and the timer of that direction is
    /// disarmed. Only a pending attempt is held against the clock: it arms
    /// the timer if need be, fails with the timeout of its direction once
    /// the deadline has been reached, and otherwise stays pending until the
    /// deadline.
    pub fn poll<T, E>(
        &mut self,
        direction: Direction,
        now: Instant,
        polled: Polled<T, E>,
    ) -> (out: Outcome<T, E>)
        ensures
            out == old(self)@.outcome(direction, now, polled),
            final(self)@ == old(self)@.after(direction, now, polled.progressed()),
    {
        match direction {
            Direction::Read => guard(&mut self.read, now, polled, direction.on_timeout()),
            Direction::Write => guard(&mut self.write, now, polled, direction.on_timeout()),
        }
    }

    /// Decides a read attempt made at `now`, to which the inner channel
    /// answered `polled`.
    pub fn poll_read<T, E>(&mut self, now: Instant, polled: Polled<T, E>) -> (out: Outcome<T, E>)
        ensures
            out == old(self)@.outcome(Direction::Read, now, polled),
            final(self)@ == old(self)@.after(Direction::Read, now, polled.progressed()),
    {
        self.poll(Direction::Read, now, polled)
    }

    /// Decides a write attempt made at `now`, to which the inner channel
    /// answered `polled`.
    pub fn poll_write<T, E>(&mut self, now: Instant, polled: Polled<T, E>) -> (out: Outcome<T, E>)
        ensures
            out == old(self)@.outcome(Direction::Write, now, polled),
            final(self)@ == old(self)@.after(Direction::Write, now, polled.progressed()),
    {
        self.poll(Direction::Write, now, polled)
    }

    /// Decides a flush attempt made at `now`. Flushing is part of writing:
    /// the write timer guards it.
    pub fn poll_flush<T, E>(&mut self, now: Instant, polled: Polled<T, E>) -> (out: Outcome<T, E>)
        ensures
            out == old(self)@.outcome(Direction::Write, now, polled),
            final(self)@ == old(self)@.after(Direction::Write, now, polled.progressed()),
    {
        self.poll(Direction::Write, now, polled)
    }

    /// Hands a shutdown attempt on. No timer guards shutdown: a caller that
    /// wants a deadline for it has to impose one from outside.
    pub fn poll_shutdown<T, E>(&mut self, polled: Polled<T, E>) -> (out: Outcome<T, E>)
        ensures
            out == Outcome::<T, E>::forwarded(polled),
            final(self)@ == old(self)@,
    {
        forward(polled)
    }

    /// Asks the inner channel about the connection and hands the answer on.
    /// The wrapper adds nothing of its own: the answer is whatever `query`
    /// gives for the inner channel.
    pub fn connected<M, F: FnOnce(&S) -> M>(&self, query: F) -> (metadata: M)
        requires
            query.requires((&self@.inner,)),
        ensures
            query.ensures((&self@.inner,), metadata),
    {
        query(&self.stream)
    }
}

} // verus!
