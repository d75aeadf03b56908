//! Errors of the library.

use vstd::prelude::*;

use crate::message::{ClientMessage, ServerMessage, StreamStats};
use crate::stream_workers::WorkerMessage;

verus! {

/// Everything that can end a client or server operation.
#[derive(Debug)]
pub enum Error {
    /// An I/O failure, by its message.
    IoError(String),
    WorkerTerminated,
    /// An address that did not parse, by the parser's message.
    ParseAddressError(String),
    /// A failed socket option call, by the system's message.
    CallLibcError(String),
    StreamWorkerError(StreamWorkerError),
    /// Publishing to the workers failed; the message that was not delivered.
    PublishWorkerMessageError(WorkerMessage),
    UnexpectedServerMessage(ServerMessage),
    UnexpectedClientMessage(ClientMessage),
    /// Forwarding stream stats failed; the stats that were not delivered.
    SendStreamStatsError(StreamStats),
    /// A worker task could not be joined, by the runtime's message.
    JoinTaskError(String),
    ServerWriteError(NetUtilError),
    ProtocolReadTimeout,
    ServerReadError(NetUtilError),
    ClientWriteError(NetUtilError),
    ClientReadError(NetUtilError),
    ClientError(ClientError),
    ServerError(ServerError),
}

/// Failures of the control-message transport.
#[derive(Debug)]
pub enum NetUtilError {
    /// The message could not be (de)serialized, by the serializer's message.
    SerializeError(String),
    /// An I/O failure, by its message.
    IoError(String),
    ControlMessageTooLarge(u32),
    ConnectionWasClosedByPeer,
}

/// Why a worker stopped listening to the controller.
#[derive(Debug, Clone, Copy, PartialEq, Eq, Structural)]
pub enum ReceiveError {
    /// The controller's publisher is gone.
    Closed,
    /// The worker missed this many messages.
    Lagged(u64),
}

/// Failures of a data-stream worker.
#[derive(Debug)]
pub enum StreamWorkerError {
    ReceiveError(ReceiveError),
    /// The stats that could not be delivered.
    StreamWorkerSendError(StreamStats),
    StreamWorkerTimeout,
    /// An I/O failure, by its message.
    StreamWorkerIoError(String),
}

/// An error a client reports to the server. The client reports none today; the
/// single variant only gives the type a value.
#[derive(Debug, Clone, Copy, PartialEq, Eq, Structural)]
pub enum ClientError {
    Unspecified,
}

/// An error a server reports to the client.
#[derive(Debug, Clone, Copy, PartialEq, Eq, Structural)]
pub enum ServerError {
    PerfTestAlreadyInFlight,
}

} // verus!
