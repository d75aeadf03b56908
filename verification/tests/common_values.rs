use iperf3_rust::constant::{DEFAULT_BLOCK_SIZE, DEFAULT_INTERVAL_SEC};
use iperf3_rust::message::{Direction, Parameters, CLIENT_VERSION};
use iperf3_rust::opts::{ClientOpts, CommonOpts};

fn client_opts() -> ClientOpts {
    ClientOpts {
        client: Some("127.0.0.1".to_string()),
        time: 10,
        bytes: None,
        length: None,
        parallel: 1,
        reverse: false,
        bidir: false,
        window: None,
        set_mss: None,
        no_delay: false,
        prefer_ipv6: false,
        interval: None,
    }
}

#[test]
fn from_opts_uses_defaults() {
    let params = Parameters::from_opts(&client_opts());
    assert_eq!(params.direction, Direction::ClientToServer);
    assert_eq!(params.block_size, DEFAULT_BLOCK_SIZE);
    assert_eq!(params.block_size, 2 * 1024 * 1024);
    assert_eq!(params.interval, DEFAULT_INTERVAL_SEC);
    assert_eq!(params.interval, 1);
    assert_eq!(params.duration, 10);
    assert_eq!(params.parallel, 1);
    assert_eq!(params.client_version, CLIENT_VERSION);
    assert_eq!(params.max_length, None);
    assert_eq!(params.socket_buffers, None);
    assert_eq!(params.mss, None);
    assert!(!params.no_delay);
    assert!(!params.prefer_ipv6);
}

#[test]
fn from_opts_copies_given_options() {
    let mut opts = client_opts();
    opts.time = 3;
    opts.bytes = Some(1000);
    opts.length = Some(4096);
    opts.parallel = 4;
    opts.window = Some(65536);
    opts.set_mss = Some(1400);
    opts.no_delay = true;
    opts.prefer_ipv6 = true;
    opts.interval = Some(5);
    let params = Parameters::from_opts(&opts);
    assert_eq!(params.duration, 3);
    assert_eq!(params.max_length, Some(1000));
    assert_eq!(params.block_size, 4096);
    assert_eq!(params.parallel, 4);
    assert_eq!(params.socket_buffers, Some(65536));
    assert_eq!(params.mss, Some(1400));
    assert!(params.no_delay);
    assert!(params.prefer_ipv6);
    assert_eq!(params.interval, 5);
}

#[test]
fn from_opts_direction_choice() {
    let mut opts = client_opts();
    opts.reverse = true;
    assert_eq!(Parameters::from_opts(&opts).direction, Direction::ServerToClient);
    opts.bidir = true;
    assert_eq!(Parameters::from_opts(&opts).direction, Direction::Bidirectional);
    opts.reverse = false;
    assert_eq!(Parameters::from_opts(&opts).direction, Direction::Bidirectional);
}

#[test]
fn new_client_perf_fills_session() {
    let common = CommonOpts { port: 9201, debug: false, bind: Some("10.0.0.1".to_string()) };
    let mut opts = client_opts();
    opts.parallel = 3;
    opts.reverse = true;
    let perf = iperf3_rust::client::new_client_perf(&common, &opts, "127.0.0.1:9201".to_string());
    assert_eq!(perf.bind_address, Some("10.0.0.1".to_string()));
    assert_eq!(perf.server_address, Some("127.0.0.1:9201".to_string()));
    assert_eq!(perf.role, iperf3_rust::message::Role::Client);
    assert_eq!(perf.num_send_streams, 0);
    assert_eq!(perf.num_receive_streams, 3);
    assert_eq!(perf.params.direction, Direction::ServerToClient);
}

#[test]
fn new_client_perf_cookie_is_random_uuid_text() {
    let common = CommonOpts { port: 9201, debug: false, bind: None };
    let a = iperf3_rust::client::new_client_perf(&common, &client_opts(), "h:1".to_string());
    let b = iperf3_rust::client::new_client_perf(&common, &client_opts(), "h:1".to_string());
    for cookie in [&a.cookie, &b.cookie] {
        let chars: Vec<char> = cookie.chars().collect();
        assert_eq!(chars.len(), 36);
        for (i, c) in chars.iter().enumerate() {
            if i == 8 || i == 13 || i == 18 || i == 23 {
                assert_eq!(*c, '-');
            } else {
                assert!(c.is_ascii_digit() || ('a'..='f').contains(c));
            }
        }
        assert_eq!(chars[14], '4');
        assert!(['8', '9', 'a', 'b'].contains(&chars[19]));
    }
    assert_ne!(a.cookie, b.cookie);
}
