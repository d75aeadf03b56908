//! Messages exchanged by client and server, and the test parameters.

use std::collections::HashMap;

use vstd::prelude::*;

use crate::constant::{DEFAULT_BLOCK_SIZE, DEFAULT_INTERVAL_SEC};
use crate::error::{ClientError, ServerError};
use crate::opts::ClientOpts;

verus! {

/// Version string that a client reports in its parameters.
pub const CLIENT_VERSION: &'static str = "0.1.0";

/// What a client sends: a message, or an error report.
#[derive(Debug)]
pub enum ClientEnvelope {
    Message(ClientMessage),
    Error(ClientError),
}

/// Message sent by the client to the server.
#[derive(Debug)]
pub enum ClientMessage {
    /// The first message sent by the client to the server.
    /// The cookie is a random uuid that the client uses to identify the session.
    Hello { cookie: String },
    /// Send parameters to the server.
    SendParameters(Parameters),
    /// Send results to the server.
    SendResults(HashMap<usize, StreamStats>),
}

/// What a server sends: a message, or an error report.
#[derive(Debug)]
pub enum ServerEnvelope {
    Message(ServerMessage),
    Error(ServerError),
}

/// Message sent by the server to the client.
#[derive(Debug)]
pub enum ServerMessage {
    /// Welcome message sent by the server to the client.
    Welcome,
    SetState(State),
    SendResults(HashMap<usize, StreamStats>),
}

/// Which end of the test this process is.
#[derive(Debug, PartialEq, Eq, Structural, Clone, Copy)]
pub enum Role {
    Client,
    Server,
}

/// Direction of stream.
#[derive(Debug, PartialEq, Eq, Structural, Clone, Copy)]
pub enum Direction {
    ClientToServer,
    ServerToClient,
    Bidirectional,
}

/// The test configuration the client proposes.
#[derive(Debug, Clone)]
pub struct Parameters {
    pub prefer_ipv6: bool,
    /// Direction of the test.
    pub direction: Direction,
    /// Duration of the test, in seconds.
    pub duration: u64,
    /// Number of parallel streams.
    pub parallel: u16,
    pub client_version: String,
    /// Length of buffer to read or write.
    pub block_size: usize,
    /// Set TCP no delay, disabling Nagle's Algorithm.
    pub no_delay: bool,
    /// SO_SNDBUF/SO_RECVBUF for the data streams, uses the system default if unset.
    pub socket_buffers: Option<usize>,
    /// Set TCP/SCTP maximum segment size (MTU - 40 bytes).
    pub mss: Option<usize>,
    /// Seconds between periodic throughput reports.
    pub interval: u64,
    /// Maximum length of data to send/recv.
    pub max_length: Option<usize>,
}

/// Throughput measured on one data stream, over one interval or the whole test.
#[derive(Debug, Clone, Copy)]
pub struct StreamStats {
    pub id: usize,
    pub index: Option<usize>,
    /// Milliseconds.
    pub duration: u64,
    pub bytes_transferred: usize,
    /// TCP retransmits (Linux only).
    pub retransmits: Option<usize>,
    /// TCP congestion window (Linux only).
    pub cwnd: Option<usize>,
    pub is_peer: bool,
    pub is_summary: bool,
}

/// Where a test is in its life-cycle.
#[derive(Debug, Clone, PartialEq, Eq)]
pub enum State {
    /// Parameters have been exchanged, but server is not ready yet to ask for data
    /// stream connections.
    Start,
    /// Asks the client to establish the data stream connections.
    CreateStreams { cookie: String },
    /// All connections are established, stream the data and measure.
    Running,
    /// Server and client exchange their results; the client initiates the exchange
    /// once it sees this state.
    ExchangeResults,
    Terminate,
}

/// A `State` with its cookie as a sequence of characters.
pub enum StateView {
    Start,
    CreateStreams { cookie: Seq<char> },
    Running,
    ExchangeResults,
    Terminate,
}

impl View for State {
    type V = StateView;

    open spec fn view(&self) -> StateView {
        match self {
            State::Start => StateView::Start,
            State::CreateStreams { cookie } => StateView::CreateStreams { cookie: cookie@ },
            State::Running => StateView::Running,
            State::ExchangeResults => StateView::ExchangeResults,
            State::Terminate => StateView::Terminate,
        }
    }
}

impl State {
    /// A copy of this state.
    pub fn copied(&self) -> (copy: State)
        ensures
            copy@ == self@,
    {
        match self {
            State::Start => State::Start,
            State::CreateStreams { cookie } => State::CreateStreams { cookie: cookie.clone() },
            State::Running => State::Running,
            State::ExchangeResults => State::ExchangeResults,
            State::Terminate => State::Terminate,
        }
    }
}

/// The direction a client asks for: bidirectional wins over reverse.
pub open spec fn requested_direction(bidir: bool, reverse: bool) -> Direction {
    if bidir {
        Direction::Bidirectional
    } else if reverse {
        Direction::ServerToClient
    } else {
        Direction::ClientToServer
    }
}

/// The value of an option, or a default when it is absent.
pub open spec fn or_default<T>(value: Option<T>, default: T) -> T {
    match value {
        Some(v) => v,
        None => default,
    }
}

/// A bidirectional request wins; otherwise reverse means server-to-client, and
/// the default is client-to-server. An absent option takes its default, a
/// present one its own value.
pub proof fn lemma_option_choices<T>(bidir: bool, reverse: bool, value: T, default: T)
    ensures
        bidir ==> requested_direction(bidir, reverse) == Direction::Bidirectional,
        !bidir && reverse ==> requested_direction(bidir, reverse) == Direction::ServerToClient,
        !bidir && !reverse ==> requested_direction(bidir, reverse) == Direction::ClientToServer,
        or_default(Some(value), default) == value,
        or_default(None::<T>, default) == default,
{
}

impl Parameters {
    /// The parameters a client proposes for its command-line options.
    pub fn from_opts(opts: &ClientOpts) -> (params: Self)
        ensures
            params.prefer_ipv6 == opts.prefer_ipv6,
            params.direction == requested_direction(opts.bidir, opts.reverse),
            params.duration == opts.time,
            params.parallel == opts.parallel,
            params.client_version@ == CLIENT_VERSION@,
            params.block_size == or_default(opts.length, DEFAULT_BLOCK_SIZE),
            params.no_delay == opts.no_delay,
            params.socket_buffers == opts.window,
            params.mss == opts.set_mss,
            params.interval == or_default(opts.interval, DEFAULT_INTERVAL_SEC),
            params.max_length == opts.bytes,
    {
        let direction = if opts.bidir {
            Direction::Bidirectional
        } else if opts.reverse {
            Direction::ServerToClient
        } else {
            Direction::ClientToServer
        };
        let block_size = match opts.length {
            Some(length) => length,
            None => DEFAULT_BLOCK_SIZE,
        };
        let interval = match opts.interval {
            Some(interval) => interval,
            None => DEFAULT_INTERVAL_SEC,
        };
        Parameters {
            prefer_ipv6: opts.prefer_ipv6,
            direction,
            duration: opts.time,
            parallel: opts.parallel,
            client_version: CLIENT_VERSION.to_owned(),
            block_size,
            no_delay: opts.no_delay,
            socket_buffers: opts.window,
            mss: opts.set_mss,
            interval,
            max_length: opts.bytes,
        }
    }
}

} // verus!
