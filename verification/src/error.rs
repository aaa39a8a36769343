//! The failures that the node reports.

use vstd::prelude::*;

verus! {

/// Why an established connection ended, with the code that the transport
/// or the peer gave where there is one.
#[derive(Clone, Copy, Debug, PartialEq, Eq, Structural)]
pub enum ConnectionFault {
    /// The peer speaks no version of the transport that this node speaks.
    VersionMismatch,
    /// The peer broke the rules of the transport; the code names the rule.
    TransportError(u64),
    /// The peer's transport closed the connection, with this code.
    ConnectionClosed(u64),
    /// The peer's application closed the connection, with this code.
    ApplicationClosed(u64),
    /// The peer no longer knows the connection.
    Reset,
    /// The peer was silent for too long.
    TimedOut,
    /// This node closed the connection.
    LocallyClosed,
    /// The connection ran out of identifiers.
    CidsExhausted,
}

/// Everything that can go wrong in the node.
///
/// Failures of a single peer are reported and survived; only
/// `MPMCRecvError`, the loss of an internal queue, ends the network loop.
#[derive(Clone, Copy, Debug, PartialEq, Eq, Structural)]
pub enum Error {
    /// The local endpoint could not be bound.
    MagicSpawn,
    /// The discovery service could not be started while binding.
    Discovery,
    /// The connection attempt could not be started.
    Connect,
    /// The connection failed, during the attempt (`None`) or later.
    Connection(Option<ConnectionFault>),
    Unknown,
    /// The peer ended the stream.
    StreamClosed,
    /// The stream could not be finished.
    StreamCrashed,
    /// Reading from the stream failed.
    StreamReadFailed,
    /// The stream held more bytes than one read accepts.
    TooLong,
    /// A text is not the encoding of a node identity.
    RemoteIDFailed,
    /// The receiving side of an internal queue is gone.
    MPMCRecvError,
    /// No conversation exists with the peer asked for.
    NoSuchClient,
    /// The data directory is missing and could not be created.
    FailedToFindLocation,
}

pub type Res<T> = Result<T, Error>;

} // verus!
