use iperf3_rust::error::{Error, ServerError};
use iperf3_rust::message::{ClientMessage, Direction, Parameters, Role, State};
use iperf3_rust::perf::Perf;
use iperf3_rust::server::{check_stream_cookie, read_cookie, read_parameters, stream_cookie_for};

fn params(direction: Direction, parallel: u16) -> Parameters {
    Parameters {
        prefer_ipv6: false,
        direction,
        duration: 10,
        parallel,
        client_version: "0.1.0".to_string(),
        block_size: 1024,
        no_delay: false,
        socket_buffers: None,
        mss: None,
        interval: 1,
        max_length: None,
    }
}

#[test]
fn stream_counts_by_direction_and_role() {
    let cases = [
        (Direction::ClientToServer, Role::Client, (4, 0)),
        (Direction::ClientToServer, Role::Server, (0, 4)),
        (Direction::ServerToClient, Role::Client, (0, 4)),
        (Direction::ServerToClient, Role::Server, (4, 0)),
        (Direction::Bidirectional, Role::Client, (4, 4)),
        (Direction::Bidirectional, Role::Server, (4, 4)),
    ];
    for (direction, role, expected) in cases {
        let perf = Perf::new(None, None, "c".to_string(), role, params(direction, 4));
        assert_eq!((perf.num_send_streams, perf.num_receive_streams), expected);
        assert_eq!(perf.role, role);
        assert_eq!(perf.cookie, "c");
    }
}

#[test]
fn peers_see_the_same_streams_from_both_ends() {
    for direction in [Direction::ClientToServer, Direction::ServerToClient, Direction::Bidirectional] {
        let c = Perf::new(None, None, "c".to_string(), Role::Client, params(direction.clone(), 3));
        let s = Perf::new(None, None, "c".to_string(), Role::Server, params(direction, 3));
        assert_eq!(c.num_send_streams, s.num_receive_streams);
        assert_eq!(c.num_receive_streams, s.num_send_streams);
    }
}

#[test]
fn read_cookie_from_hello_only() {
    assert_eq!(read_cookie(ClientMessage::Hello { cookie: "abc".to_string() }).unwrap(), "abc");
    assert!(matches!(
        read_cookie(ClientMessage::SendParameters(params(Direction::ClientToServer, 1))),
        Err(Error::UnexpectedClientMessage(ClientMessage::SendParameters(_)))
    ));
}

#[test]
fn read_parameters_from_send_parameters_only() {
    let p = read_parameters(ClientMessage::SendParameters(params(Direction::ServerToClient, 2))).unwrap();
    assert_eq!(p.direction, Direction::ServerToClient);
    assert_eq!(p.parallel, 2);
    assert!(matches!(
        read_parameters(ClientMessage::Hello { cookie: "x".to_string() }),
        Err(Error::UnexpectedClientMessage(ClientMessage::Hello { .. }))
    ));
}

#[test]
fn streams_admitted_only_while_creating_streams() {
    let waiting = State::CreateStreams { cookie: "secret".to_string() };
    assert_eq!(stream_cookie_for(&waiting), Ok("secret".to_string()));
    for state in [State::Start, State::Running, State::ExchangeResults, State::Terminate] {
        assert_eq!(stream_cookie_for(&state), Err(ServerError::PerfTestAlreadyInFlight));
    }
}

#[test]
fn stream_admitted_only_with_the_test_cookie() {
    let expected = "secret".to_string();
    assert_eq!(check_stream_cookie(&expected, &"secret".to_string()), Ok(()));
    assert_eq!(
        check_stream_cookie(&expected, &"other".to_string()),
        Err(ServerError::PerfTestAlreadyInFlight)
    );
    assert_eq!(
        check_stream_cookie(&expected, &"".to_string()),
        Err(ServerError::PerfTestAlreadyInFlight)
    );
}
