//! The failures that this layer reports.

use vstd::prelude::*;

verus! {

/// Every failure is one of these kinds, so that the caller can tell a
/// deadline of this layer from a failure of the transport underneath. `E`
/// is the transport's own error, handed on as it came.
#[derive(Clone, Debug, PartialEq, Eq)]
pub enum Error<E> {
    /// The connect deadline was reached before the inner connector completed.
    ConnectTimeout,
    /// The inner connector failed.
    ConnectFailure(E),
    /// The read deadline was reached with no data delivered.
    ReadTimeout,
    /// The write deadline was reached with nothing accepted.
    WriteTimeout,
    /// Any other failure of the inner channel.
    ChannelError(E),
}

impl<E> Error<E> {
    /// Whether a deadline of this layer caused the failure.
    pub open spec fn timed_out(self) -> bool {
        self is ConnectTimeout || self is ReadTimeout || self is WriteTimeout
    }

    /// The transport's own error, where the failure came from the transport.
    pub open spec fn source(self) -> Option<E> {
        match self {
            Error::ConnectFailure(e) => Some(e),
            Error::ChannelError(e) => Some(e),
            _ => None,
        }
    }

    /// Whether a deadline of this layer caused the failure.
    pub fn is_timeout(&self) -> (yes: bool)
        ensures
            yes == self.timed_out(),
    {
        match self {
            Error::ConnectTimeout => true,
            Error::ReadTimeout => true,
            Error::WriteTimeout => true,
            _ => false,
        }
    }

    /// Gives the transport's own error back, unchanged, where there is one.
    pub fn into_source(self) -> (inner: Option<E>)
        ensures
            inner == self.source(),
    {
        match self {
            Error::ConnectFailure(e) => Some(e),
            Error::ChannelError(e) => Some(e),
            _ => None,
        }
    }
}

} // verus!
