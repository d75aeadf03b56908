//! Command-line options.

use vstd::prelude::*;

verus! {

/// All command-line options.
#[derive(Debug, Clone)]
pub struct Opts {
    pub common: CommonOpts,
    pub server: ServerOpts,
    pub client: ClientOpts,
}

/// Options shared by client and server.
#[derive(Debug, Clone)]
pub struct CommonOpts {
    /// Server port to listen on/connect to.
    pub port: u16,
    /// Emit debugging output.
    pub debug: bool,
    /// Bind to the interface associated with the address <host>.
    pub bind: Option<String>,
}

/// Server-only options.
#[derive(Debug, Clone)]
pub struct ServerOpts {
    /// Run in server mode.
    pub server: bool,
}

/// Client-only options.
#[derive(Debug, Clone)]
pub struct ClientOpts {
    /// Run in client mode, connecting to <host>.
    pub client: Option<String>,
    /// Time in seconds to transmit for.
    pub time: u64,
    /// Number of bytes to transmit.
    pub bytes: Option<usize>,
    /// Length of buffer to read or write.
    pub length: Option<usize>,
    /// Number of parallel client streams to run.
    pub parallel: u16,
    /// Run in reverse mode (server sends, client receives).
    pub reverse: bool,
    /// Run in bidirectional mode: client and server send and receive data.
    pub bidir: bool,
    /// Set window size / socket buffer size.
    pub window: Option<usize>,
    /// Set TCP/SCTP maximum segment size (MTU - 40 bytes).
    pub set_mss: Option<usize>,
    /// Set TCP/SCTP no delay, disabling Nagle's Algorithm.
    pub no_delay: bool,
    /// Prefer IPv6.
    pub prefer_ipv6: bool,
    /// Seconds between periodic throughput reports.
    pub interval: Option<u64>,
}

} // verus!
