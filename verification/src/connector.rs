//! The connector wrapper: races one connect attempt against a deadline and
//! wraps the channel that comes out of it.

use vstd::prelude::*;
use crate::error::Error;
use crate::poll::Polled;
use crate::duplex::{lemma_directions_are_independent, Attempt};
use crate::stream::{Direction, StreamView, TimeoutConnectorStream};
use crate::timer::{Duration, IdleTimer, Instant, TimerView, Verdict};

verus! {

/// A connector wrapper as contracts see it.
pub struct ConnectorView<C> {
    /// The inner connector.
    pub inner: C,
    /// The bound on establishing a channel.
    pub connect_timeout: Option<Duration>,
    /// The read-idle bound that every new channel starts with.
    pub read_timeout: Option<Duration>,
    /// The write-idle bound that every new channel starts with.
    pub write_timeout: Option<Duration>,
}

impl<C> ConnectorView<C> {
    /// A connector that was just wrapped: no bound on any phase.
    pub open spec fn fresh(inner: C) -> ConnectorView<C> {
        ConnectorView { inner, connect_timeout: None, read_timeout: None, write_timeout: None }
    }

    /// The attempt that starts at `now`: its deadline is fixed here, at
    /// `now` plus the connect bound, and it carries the two channel bounds
    /// as they are at this moment.
    pub open spec fn attempt(self, now: Instant) -> ConnectingView {
        ConnectingView {
            timer: TimerView::unset().with_timeout(self.connect_timeout).arm(now),
            read_timeout: self.read_timeout,
            write_timeout: self.write_timeout,
        }
    }
}

/// One connect attempt that has not come to an end yet, as contracts see it.
pub struct ConnectingView {
    /// The timer that holds the connect deadline.
    pub timer: TimerView,
    /// The read-idle bound for the channel to come.
    pub read_timeout: Option<Duration>,
    /// The write-idle bound for the channel to come.
    pub write_timeout: Option<Duration>,
}

/// Where one connect attempt stands after a look at it, as contracts see
/// it. An attempt starts pending and ends in exactly one of the other
/// states; nothing is retried.
pub enum ConnectView<S, E> {
    /// The race is still on.
    Pending(ConnectingView),
    /// The inner connector delivered a channel in time.
    Connected(StreamView<S>),
    /// The deadline came first, or the inner connector failed.
    Failed(Error<E>),
}

impl ConnectingView {
    /// Where the attempt stands once the inner connector has answered: a
    /// channel is wrapped and primed with the two bounds, a failure is
    /// handed on as it came.
    pub open spec fn settled<S, E>(self, polled: Polled<S, E>) -> ConnectView<S, E> {
        match polled {
            Polled::Ready(stream) => ConnectView::Connected(
                StreamView::primed(stream, self.read_timeout, self.write_timeout),
            ),
            Polled::Failed(e) => ConnectView::Failed(Error::ConnectFailure(e)),
            Polled::Pending => ConnectView::Pending(self),
        }
    }

    /// Where the attempt stands at `now`, given what the inner connector
    /// answered. The connector's answer is looked at first: a channel that
    /// arrives at the very instant of the deadline is a success.
    pub open spec fn step<S, E>(self, now: Instant, polled: Polled<S, E>) -> ConnectView<S, E> {
        match polled {
            Polled::Ready(_) => self.settled(polled),
            Polled::Failed(_) => self.settled(polled),
            Polled::Pending => match self.timer.verdict(now, false) {
                Verdict::TimedOut => ConnectView::Failed(Error::ConnectTimeout),
                _ => ConnectView::Pending(
                    ConnectingView { timer: self.timer.observe(now, false), ..self },
                ),
            },
        }
    }
}

/// One connect attempt that has not come to an end yet.
#[derive(Debug)]
pub struct Connecting {
    timer: IdleTimer,
    read_timeout: Option<Duration>,
    write_timeout: Option<Duration>,
}

impl View for Connecting {
    type V = ConnectingView;

    closed spec fn view(&self) -> ConnectingView {
        ConnectingView {
            timer: self.timer@,
            read_timeout: self.read_timeout,
            write_timeout: self.write_timeout,
        }
    }
}

/// Where one connect attempt stands after a look at it.
#[derive(Debug)]
pub enum Connect<S, E> {
    /// The race is still on: go on with this attempt.
    Pending(Connecting),
    /// The channel, wrapped and primed with the read and write bounds.
    Connected(TimeoutConnectorStream<S>),
    /// `ConnectTimeout` if the deadline came first, `ConnectFailure` with
    /// the inner connector's own error if it failed.
    Failed(Error<E>),
}

impl<S, E> View for Connect<S, E> {
    type V = ConnectView<S, E>;

    open spec fn view(&self) -> ConnectView<S, E> {
        match self {
            Connect::Pending(attempt) => ConnectView::Pending(attempt@),
            Connect::Connected(stream) => ConnectView::Connected(stream@),
            Connect::Failed(e) => ConnectView::Failed(*e),
        }
    }
}

impl Connecting {
    /// The instant of the connect deadline, at which the driver has to look
    /// again if the inner connector has not answered by then.
    pub fn wake_at(&self) -> (at: Option<Instant>)
        ensures
            at == self@.timer.wake_at(),
    {
        self.timer.wake_at()
    }

    /// Decides the attempt at `now`, given what the inner connector
    /// answered. The attempt is used up: only a pending one comes back.
    pub fn poll<S, E>(self, now: Instant, polled: Polled<S, E>) -> (next: Connect<S, E>)
        ensures
            next@ == self@.step(now, polled),
    {
        match polled {
            Polled::Ready(stream) => {
                let mut wrapped = TimeoutConnectorStream::new(stream);
                wrapped.set_read_timeout(self.read_timeout);
                wrapped.set_write_timeout(self.write_timeout);
                Connect::Connected(wrapped)
            },
            Polled::Failed(e) => Connect::Failed(Error::ConnectFailure(e)),
            Polled::Pending => {
                let mut attempt = self;
                match attempt.timer.observe(now, false) {
                    Verdict::TimedOut => Connect::Failed(Error::ConnectTimeout),
                    _ => Connect::Pending(attempt),
                }
            },
        }
    }
}

/// A transport connector with a connect timeout, which hands out channels
/// with a read-idle and a write-idle timeout.
#[derive(Clone, Debug)]
pub struct TimeoutConnector<C> {
    connector: C,
    connect_timeout: Option<Duration>,
    read_timeout: Option<Duration>,
    write_timeout: Option<Duration>,
}

impl<C> View for TimeoutConnector<C> {
    type V = ConnectorView<C>;

    closed spec fn view(&self) -> ConnectorView<C> {
        ConnectorView {
            inner: self.connector,
            connect_timeout: self.connect_timeout,
            read_timeout: self.read_timeout,
            write_timeout: self.write_timeout,
        }
    }
}

impl<C> TimeoutConnector<C> {
    /// Wraps `connector`. There is initially no bound on any phase.
    pub fn new(connector: C) -> (wrapped: TimeoutConnector<C>)
        ensures
            wrapped@ == ConnectorView::fresh(connector),
    {
        TimeoutConnector {
            connector,
            connect_timeout: None,
            read_timeout: None,
            write_timeout: None,
        }
    }

    /// Sets the bound on establishing a channel. Default is no timeout.
    pub fn set_connect_timeout(&mut self, timeout: Option<Duration>)
        ensures
            final(self)@ == (ConnectorView { connect_timeout: timeout, ..old(self)@ }),
    {
        self.connect_timeout = timeout;
    }

    /// Sets the read-idle bound of every channel connected from now on.
    /// Default is no timeout.
    pub fn set_read_timeout(&mut self, timeout: Option<Duration>)
        ensures
            final(self)@ == (ConnectorView { read_timeout: timeout, ..old(self)@ }),
    {
        self.read_timeout = timeout;
    }

    /// Sets the write-idle bound of every channel connected from now on.
    /// Default is no timeout.
    pub fn set_write_timeout(&mut self, timeout: Option<Duration>)
        ensures
            final(self)@ == (ConnectorView { write_timeout: timeout, ..old(self)@ }),
    {
        self.write_timeout = timeout;
    }

    /// Returns a shared reference to the inner connector.
    pub fn get_ref(&self) -> (inner: &C)
        ensures
            *inner == self@.inner,
    {
        &self.connector
    }

    /// Returns a mutable reference to the inner connector. The three bounds
    /// stay as they are.
    pub fn get_mut(&mut self) -> (inner: &mut C)
        ensures
            *inner == old(self)@.inner,
            final(self)@ == (ConnectorView { inner: *final(inner), ..old(self)@ }),
    {
        &mut self.connector
    }

    /// Starts a connect attempt at `now`. The driver asks the inner
    /// connector and reports each answer to the attempt.
    pub fn connect(&self, now: Instant) -> (attempt: Connecting)
        ensures
            attempt@ == self@.attempt(now),
    {
        let mut timer = IdleTimer::new();
        timer.set_timeout(self.connect_timeout);
        timer.arm(now);
        Connecting { timer, read_timeout: self.read_timeout, write_timeout: self.write_timeout }
    }
}

/// The race between the inner connector and the connect deadline. Take an
/// attempt with deadline `deadline`, an inner connector that completes at
/// `completes`, and a look at `now`. From `completes` on, the look ends the
/// attempt with the connector's own answer and never with a timeout,
/// whether or not the deadline has passed. Before that, the look is a
/// timeout once the deadline has been reached, and leaves the attempt
/// exactly as it was until then.
pub proof fn lemma_connect_race<S, E>(
    attempt: ConnectingView,
    completes: Instant,
    deadline: int,
    now: Instant,
    polled: Polled<S, E>,
)
    requires
        attempt.timer.timeout is Some,
        attempt.timer.deadline == Some(deadline),
        polled.progressed() <==> completes <= now,
    ensures
        attempt.step(now, polled) == (if completes <= now {
            attempt.settled(polled)
        } else if deadline <= now {
            ConnectView::Failed(Error::ConnectTimeout)
        } else {
            ConnectView::Pending(attempt)
        }),
        completes <= now ==> attempt.step(now, polled)
            != ConnectView::<S, E>::Failed(Error::ConnectTimeout),
{
}

/// The race as the scheduler runs it: it resumes the attempt at the earlier
/// of the two instants. If the inner connector delivers a channel no later
/// than the deadline, the attempt succeeds, a tie included; if the deadline
/// comes strictly first, the attempt fails with a connect timeout.
pub proof fn lemma_connect_race_at_wake_up<S, E>(
    attempt: ConnectingView,
    completes: Instant,
    deadline: Instant,
    stream: S,
)
    requires
        attempt.timer.timeout is Some,
        attempt.timer.deadline == Some(deadline as int),
    ensures
        completes <= deadline ==> attempt.step(completes, Polled::<S, E>::Ready(stream))
            == ConnectView::<S, E>::Connected(
                StreamView::primed(stream, attempt.read_timeout, attempt.write_timeout),
            ),
        deadline < completes ==> attempt.step(deadline, Polled::<S, E>::Pending)
            == ConnectView::<S, E>::Failed(Error::ConnectTimeout),
{
}

/// A connect attempt whose inner connector never answers fails with a
/// connect timeout at the first look made at least the connect bound after
/// its start, and stays as it is at every look before that.
pub proof fn lemma_connect_times_out_at_deadline<C, S, E>(
    connector: ConnectorView<C>,
    bound: Duration,
    start: Instant,
    now: Instant,
)
    requires
        connector.connect_timeout == Some(bound),
    ensures
        connector.attempt(start).timer.deadline == Some(start + bound),
        now >= start + bound ==> connector.attempt(start).step(now, Polled::<S, E>::Pending)
            == ConnectView::<S, E>::Failed(Error::ConnectTimeout),
        now < start + bound ==> connector.attempt(start).step(now, Polled::<S, E>::Pending)
            == ConnectView::<S, E>::Pending(connector.attempt(start)),
{
}

/// With no connect bound an attempt never fails with a timeout, and stays
/// as it is for as long as the inner connector stays pending.
pub proof fn lemma_unbounded_connect_never_times_out<C, S, E>(
    connector: ConnectorView<C>,
    start: Instant,
    now: Instant,
    polled: Polled<S, E>,
)
    requires
        connector.connect_timeout is None,
    ensures
        connector.attempt(start).step(now, polled)
            != ConnectView::<S, E>::Failed(Error::ConnectTimeout),
        polled is Pending ==> connector.attempt(start).step(now, polled)
            == ConnectView::<S, E>::Pending(connector.attempt(start)),
{
}

/// A channel that comes out of a connect attempt holds the channel that
/// the inner connector delivered, and goes on holding it through every
/// attempt in either direction; the wrapper puts a question about the
/// connection to that channel and to nothing else. Its two timers start
/// disarmed, with the bounds that the connector had when the attempt began.
pub proof fn lemma_connected_channel_is_the_inner<C, S, E>(
    connector: ConnectorView<C>,
    start: Instant,
    now: Instant,
    stream: S,
    history: Seq<Attempt>,
)
    ensures
        ({
            let wrapped = StreamView::primed(
                stream,
                connector.read_timeout,
                connector.write_timeout,
            );
            &&& connector.attempt(start).step(now, Polled::<S, E>::Ready(stream))
                == ConnectView::<S, E>::Connected(wrapped)
            &&& wrapped.run(history).inner == stream
        }),
{
    lemma_directions_are_independent(
        StreamView::primed(stream, connector.read_timeout, connector.write_timeout),
        history,
        Direction::Read,
    );
}

} // verus!
