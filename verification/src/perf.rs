//! The session-wide facts of one test run.

use vstd::prelude::*;

use crate::message::{Direction, Parameters, Role};

verus! {

/// The numbers of (sending, receiving) data streams a side runs: the client
/// counts as the `direction` says, the server sees the same streams from the
/// other end.
pub open spec fn stream_counts(direction: Direction, parallel: u16, role: Role) -> (u16, u16) {
    let client = match direction {
        Direction::ClientToServer => (parallel, 0u16),
        Direction::ServerToClient => (0u16, parallel),
        Direction::Bidirectional => (parallel, parallel),
    };
    match role {
        Role::Client => client,
        Role::Server => (client.1, client.0),
    }
}

/// What one side knows about the test it runs.
#[derive(Debug)]
pub struct Perf {
    /// Bind local address.
    pub bind_address: Option<String>,
    /// Server address that client should connect to.
    pub server_address: Option<String>,
    /// A unique identifier for this test run, used by clients to authenticate data streams.
    pub cookie: String,
    /// Defines whether we are a server or client in the test run.
    pub role: Role,
    /// The test configuration.
    pub params: Parameters,
    /// The number of streams at which we are sending data.
    pub num_send_streams: u16,
    /// The number of streams at which we are receiving data.
    pub num_receive_streams: u16,
}

impl Perf {
    /// A test run with the given parameters, seen from `role`.
    pub fn new(
        bind_address: Option<String>,
        server_address: Option<String>,
        cookie: String,
        role: Role,
        params: Parameters,
    ) -> (perf: Self)
        ensures
            perf.bind_address == bind_address,
            perf.server_address == server_address,
            perf.cookie == cookie,
            perf.role == role,
            perf.params == params,
            (perf.num_send_streams, perf.num_receive_streams) == stream_counts(
                params.direction,
                params.parallel,
                role,
            ),
    {
        let mut num_send_streams: u16 = 0;
        let mut num_receive_streams: u16 = 0;
        match params.direction {
            Direction::ClientToServer => num_send_streams = params.parallel,
            Direction::ServerToClient => num_receive_streams = params.parallel,
            Direction::Bidirectional => {
                num_send_streams = params.parallel;
                num_receive_streams = params.parallel;
            },
        }
        if role == Role::Server {
            let sending = num_send_streams;
            num_send_streams = num_receive_streams;
            num_receive_streams = sending;
        }
        Perf {
            bind_address,
            server_address,
            cookie,
            role,
            params,
            num_send_streams,
            num_receive_streams,
        }
    }
}

/// The client sends on `parallel` streams in a client-to-server test, receives
/// on `parallel` streams in a server-to-client test, and does both in a
/// bidirectional test; the server's counts are the client's, swapped.
pub proof fn lemma_stream_counts_by_direction(parallel: u16)
    ensures
        stream_counts(Direction::ClientToServer, parallel, Role::Client) == (parallel, 0u16),
        stream_counts(Direction::ServerToClient, parallel, Role::Client) == (0u16, parallel),
        stream_counts(Direction::Bidirectional, parallel, Role::Client) == (parallel, parallel),
        stream_counts(Direction::ClientToServer, parallel, Role::Server) == (0u16, parallel),
        stream_counts(Direction::ServerToClient, parallel, Role::Server) == (parallel, 0u16),
        stream_counts(Direction::Bidirectional, parallel, Role::Server) == (parallel, parallel),
{
}

/// Client and server of one test agree on the data streams: the streams one
/// side sends on are the streams the other side receives on, and both count the
/// same total.
pub proof fn lemma_peers_agree_on_streams(direction: Direction, parallel: u16)
    ensures
        stream_counts(direction, parallel, Role::Server).0 == stream_counts(direction, parallel, Role::Client).1,
        stream_counts(direction, parallel, Role::Server).1 == stream_counts(direction, parallel, Role::Client).0,
        stream_counts(direction, parallel, Role::Server).0 + stream_counts(direction, parallel, Role::Server).1
            == stream_counts(direction, parallel, Role::Client).0 + stream_counts(direction, parallel, Role::Client).1,
{
}

} // verus!
