//! Connect, read-idle and write-idle timeouts for pluggable transports, as a
//! core that performs no I/O of its own.
//!
//! The driver owns the clock and the channel. On every attempt it tells the
//! core what time it is and what the channel answered; the core keeps one
//! one-shot timer per direction and says whether the attempt goes through,
//! stays pending, or fails with a timeout.
//!
//! - [`timer`]: the one-shot idle timer, armed on demand and reset by
//!   progress.
//! - [`poll`]: what the channel answers and what the caller is told.
//! - [`stream`]: a channel with a read-idle and a write-idle timeout.
//! - [`connector`]: a connector that races each connect attempt against a
//!   deadline and wraps the channel that comes out of it.
//! - [`error`]: the failures of this layer, each of a kind of its own.
//! - [`trace`], [`duplex`]: what holds over whole runs of attempts: a stall
//!   times out when its bound has passed and not before, progress resets
//!   the clock, the two directions are independent, and no limit means no
//!   timeout.
//!
//! Time is counted in nanoseconds: an [`Instant`] is a reading of the
//! driver's monotonic clock, a [`Duration`] a bound. A deadline is their
//! exact sum; one that lies beyond the range of the clock never comes.

pub mod connector;
pub mod duplex;
pub mod error;
pub mod poll;
pub mod stream;
pub mod timer;
pub mod trace;

pub use crate::connector::{Connect, Connecting, TimeoutConnector};
pub use crate::error::Error;
pub use crate::poll::{Outcome, Polled};
pub use crate::stream::{Direction, TimeoutConnectorStream};
pub use crate::timer::{Duration, IdleTimer, Instant, Verdict};
