use iperf3_rust::constant::MAX_CONTROL_MESSAGE_SIZE;
use iperf3_rust::error::{ClientError, Error, NetUtilError, ServerError};
use iperf3_rust::message::{ClientEnvelope, ClientMessage, ServerEnvelope, ServerMessage, State};
use iperf3_rust::net_util::{
    frame_control_message, open_client_envelope, open_server_envelope, read_frame_length,
};

#[test]
fn frame_prefixes_big_endian_length() {
    let frame = frame_control_message(b"hello");
    assert_eq!(frame, vec![0, 0, 0, 5, b'h', b'e', b'l', b'l', b'o']);
}

#[test]
fn frame_of_empty_payload_is_zero_header() {
    assert_eq!(frame_control_message(b""), vec![0, 0, 0, 0]);
}

#[test]
fn frame_length_uses_all_four_bytes() {
    let payload = vec![7u8; 0x0102_03];
    let frame = frame_control_message(&payload);
    assert_eq!(&frame[..4], &[0x00, 0x01, 0x02, 0x03]);
    assert_eq!(&frame[4..], &payload[..]);
}

#[test]
fn frame_roundtrip_reads_back_length() {
    let payload = br#"{"Message":"Welcome"}"#;
    let frame = frame_control_message(payload);
    let n = read_frame_length(&frame[..4]).unwrap();
    assert_eq!(n as usize, payload.len());
    assert_eq!(&frame[4..4 + n as usize], &payload[..]);
}

#[test]
fn read_frame_length_big_endian() {
    assert_eq!(read_frame_length(&[0x00, 0x01, 0x00, 0x02]).unwrap(), 0x0001_0002);
}

#[test]
fn read_frame_length_accepts_the_limit() {
    let header = MAX_CONTROL_MESSAGE_SIZE.to_be_bytes();
    assert_eq!(read_frame_length(&header).unwrap(), MAX_CONTROL_MESSAGE_SIZE);
    assert_eq!(MAX_CONTROL_MESSAGE_SIZE, 20 * 1024 * 1024);
}

#[test]
fn read_frame_length_refuses_above_the_limit() {
    let header = (MAX_CONTROL_MESSAGE_SIZE + 1).to_be_bytes();
    match read_frame_length(&header) {
        Err(NetUtilError::ControlMessageTooLarge(n)) => assert_eq!(n, MAX_CONTROL_MESSAGE_SIZE + 1),
        other => panic!("unexpected {other:?}"),
    }
    match read_frame_length(&[0xff, 0xff, 0xff, 0xff]) {
        Err(NetUtilError::ControlMessageTooLarge(n)) => assert_eq!(n, u32::MAX),
        other => panic!("unexpected {other:?}"),
    }
}

#[test]
fn open_server_envelope_message() {
    match open_server_envelope(ServerEnvelope::Message(ServerMessage::SetState(State::Running))) {
        Ok(ServerMessage::SetState(State::Running)) => {}
        other => panic!("unexpected {other:?}"),
    }
}

#[test]
fn open_server_envelope_error() {
    match open_server_envelope(ServerEnvelope::Error(ServerError::PerfTestAlreadyInFlight)) {
        Err(Error::ServerError(ServerError::PerfTestAlreadyInFlight)) => {}
        other => panic!("unexpected {other:?}"),
    }
}

#[test]
fn open_client_envelope_message_and_error() {
    match open_client_envelope(ClientEnvelope::Message(ClientMessage::Hello { cookie: "c".to_string() })) {
        Ok(ClientMessage::Hello { cookie }) => assert_eq!(cookie, "c"),
        other => panic!("unexpected {other:?}"),
    }
    match open_client_envelope(ClientEnvelope::Error(ClientError::Unspecified)) {
        Err(Error::ClientError(ClientError::Unspecified)) => {}
        other => panic!("unexpected {other:?}"),
    }
}
