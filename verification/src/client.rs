//! The client's side of opening a test.

use vstd::prelude::*;

use crate::message::{Parameters, Role, requested_direction, or_default, CLIENT_VERSION};
use crate::constant::{DEFAULT_BLOCK_SIZE, DEFAULT_INTERVAL_SEC};
use crate::opts::{ClientOpts, CommonOpts};
use crate::perf::{stream_counts, Perf};

verus! {

/// Whether `c` is a lowercase hexadecimal digit.
pub open spec fn is_lower_hex(c: char) -> bool {
    ('0' <= c && c <= '9') || ('a' <= c && c <= 'f')
}

/// Whether `s` is the hyphenated text of a random (version 4) UUID: 36
/// characters, dashes at positions 8, 13, 18 and 23, lowercase hexadecimal
/// digits elsewhere, the version digit `4` at position 14, and a variant
/// digit among `8`, `9`, `a`, `b` at position 19.
pub open spec fn is_random_uuid_text(s: Seq<char>) -> bool {
    &&& s.len() == 36
    &&& forall|i: int| 0 <= i < 36 ==> if i == 8 || i == 13 || i == 18 || i == 23 {
        #[trigger] s[i] == '-'
    } else {
        is_lower_hex(s[i])
    }
    &&& s[14] == '4'
    &&& (s[19] == '8' || s[19] == '9' || s[19] == 'a' || s[19] == 'b')
}

/// `uuid::Uuid::new_v4().hyphenated().to_string()`: a fresh random UUID as text.
/// Which UUID comes out is left unsaid; only its shape is stated.
#[verifier::external_body]
fn random_uuid_text() -> (s: String)
    ensures
        is_random_uuid_text(s@),
{
    uuid::Uuid::new_v4().hyphenated().to_string()
}

/// The test a client proposes to the server at `server_address`: a fresh
/// cookie, the parameters its options ask for, and its stream counts.
pub fn new_client_perf(
    common_opts: &CommonOpts,
    client_opts: &ClientOpts,
    server_address: String,
) -> (perf: Perf)
    ensures
        perf.bind_address == common_opts.bind,
        perf.server_address == Some(server_address),
        is_random_uuid_text(perf.cookie@),
        perf.role == Role::Client,
        perf.params.prefer_ipv6 == client_opts.prefer_ipv6,
        perf.params.direction == requested_direction(client_opts.bidir, client_opts.reverse),
        perf.params.duration == client_opts.time,
        perf.params.parallel == client_opts.parallel,
        perf.params.client_version@ == CLIENT_VERSION@,
        perf.params.block_size == or_default(client_opts.length, DEFAULT_BLOCK_SIZE),
        perf.params.no_delay == client_opts.no_delay,
        perf.params.socket_buffers == client_opts.window,
        perf.params.mss == client_opts.set_mss,
        perf.params.interval == or_default(client_opts.interval, DEFAULT_INTERVAL_SEC),
        perf.params.max_length == client_opts.bytes,
        (perf.num_send_streams, perf.num_receive_streams) == stream_counts(
            perf.params.direction,
            client_opts.parallel,
            Role::Client,
        ),
{
    let cookie = random_uuid_text();
    let params = Parameters::from_opts(client_opts);
    Perf::new(common_opts.bind.clone(), Some(server_address), cookie, Role::Client, params)
}

} // verus!
