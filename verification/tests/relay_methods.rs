use socks5_proxy::methods::AuthMethods;
use socks5_proxy::relay::{ReadEvent, RelayAction, RelayDirection, RelayPair, RELAY_BUFFER_SIZE};

#[test]
fn multi_kilobyte_payload_is_relayed_unaltered_and_in_order() {
    // A payload several times the relay buffer, with a non-repeating
    // pattern so any reordering or corruption would show.
    let payload: Vec<u8> = (0..5000u32).map(|i| (i * 31 % 251) as u8).collect();
    let mut direction = RelayDirection::new();
    let mut written: Vec<u8> = Vec::new();

    for chunk in payload.chunks(RELAY_BUFFER_SIZE) {
        assert!(!direction.is_done());
        match direction.on_read(ReadEvent::Data(chunk.to_vec())) {
            RelayAction::Forward(bytes) => written.extend_from_slice(&bytes),
            RelayAction::Stop => panic!("stopped in the middle of the stream"),
        }
    }
    assert_eq!(written, payload);

    // The clean end of the stream stops the loop.
    match direction.on_read(ReadEvent::Data(vec![])) {
        RelayAction::Stop => {},
        RelayAction::Forward(_) => panic!("forwarded after the end of the stream"),
    }
    assert!(direction.is_done());
}

#[test]
fn peer_close_stops_the_direction_at_once() {
    let mut direction = RelayDirection::new();
    match direction.on_read(ReadEvent::Data(vec![])) {
        RelayAction::Stop => {},
        RelayAction::Forward(_) => panic!("forwarded on a closed stream"),
    }
    assert!(direction.is_done());
}

#[test]
fn read_error_stops_the_direction_at_once() {
    let mut direction = RelayDirection::new();
    match direction.on_read(ReadEvent::Failed) {
        RelayAction::Stop => {},
        RelayAction::Forward(_) => panic!("forwarded on a failed read"),
    }
    assert!(direction.is_done());
}

#[test]
fn write_error_stops_the_direction() {
    let mut direction = RelayDirection::new();
    match direction.on_read(ReadEvent::Data(vec![1u8, 2u8, 3u8])) {
        RelayAction::Forward(bytes) => assert_eq!(bytes, vec![1u8, 2u8, 3u8]),
        RelayAction::Stop => panic!("stopped on live data"),
    }
    direction.on_write_error();
    assert!(direction.is_done());
}

#[test]
fn relay_finishes_only_when_both_directions_are_done() {
    let mut pair = RelayPair::new();
    assert!(!pair.finished());
    pair.client_to_upstream.on_read(ReadEvent::Data(vec![]));
    assert!(!pair.finished());
    pair.upstream_to_client.on_read(ReadEvent::Failed);
    assert!(pair.finished());
}

#[test]
fn method_bytes_round_trip() {
    let methods = vec![
        (AuthMethods::NoAuth, 0u8),
        (AuthMethods::GsSAPI, 1u8),
        (AuthMethods::UsernamePassword, 2u8),
        (AuthMethods::IANAAssigned, 3u8),
        (AuthMethods::Reserved, 4u8),
        (AuthMethods::NotAcceptable, 0xffu8),
    ];
    for (method, byte) in methods {
        assert_eq!(method.to_u8(), byte);
        assert_eq!(AuthMethods::try_from_byte(byte), Some(method));
        assert_eq!(AuthMethods::from(byte), method);
    }
    assert_eq!(AuthMethods::try_from_byte(9u8), None);
}
