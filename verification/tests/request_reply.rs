use socks5_proxy::check_valid_version;
use socks5_proxy::error::ProtocolError;
use socks5_proxy::reply::{
    encode_failure_reply, encode_reply, reply_code_for_connect_error,
    reply_code_for_protocol_error, ConnectErrorKind, ReplyCode,
};
use socks5_proxy::request::{parse_request, TargetAddr};

#[test]
fn version_check_accepts_only_five() {
    assert!(check_valid_version(&5u8));
    assert!(!check_valid_version(&4u8));
    assert!(!check_valid_version(&0u8));
}

#[test]
fn ipv4_connect_request_decodes_address_and_port() {
    let msg = vec![5u8, 1u8, 0u8, 1u8, 93u8, 184u8, 216u8, 34u8, 0u8, 80u8];
    let request = parse_request(&msg).unwrap();
    match &request.addr {
        TargetAddr::Ipv4 { octets } => assert_eq!(octets, &vec![93u8, 184u8, 216u8, 34u8]),
        _ => panic!("wrong address type"),
    }
    assert_eq!(request.port, 80);

    let reply = encode_reply(&ReplyCode::Succeeded, &request.addr, request.port);
    assert_eq!(reply, vec![5u8, 0u8, 0u8, 1u8, 93u8, 184u8, 216u8, 34u8, 0u8, 80u8]);
}

#[test]
fn domain_connect_request_decodes_name_and_port() {
    let mut msg = vec![5u8, 1u8, 0u8, 3u8, 11u8];
    msg.extend_from_slice(b"example.com");
    msg.push(1u8);
    msg.push(187u8);
    let request = parse_request(&msg).unwrap();
    match &request.addr {
        TargetAddr::Domain { name } => assert_eq!(name, &b"example.com".to_vec()),
        _ => panic!("wrong address type"),
    }
    assert_eq!(request.port, 443);

    let reply = encode_reply(&ReplyCode::Succeeded, &request.addr, request.port);
    let mut wanted = vec![5u8, 0u8, 0u8, 3u8, 11u8];
    wanted.extend_from_slice(b"example.com");
    wanted.push(1u8);
    wanted.push(187u8);
    assert_eq!(reply, wanted);
}

#[test]
fn ipv6_connect_request_decodes_octets_and_port() {
    let mut msg = vec![5u8, 1u8, 0u8, 4u8];
    let octets: Vec<u8> = (1u8..=16u8).collect();
    msg.extend_from_slice(&octets);
    msg.push(31u8);
    msg.push(64u8);
    let request = parse_request(&msg).unwrap();
    match &request.addr {
        TargetAddr::Ipv6 { octets: got } => assert_eq!(got, &octets),
        _ => panic!("wrong address type"),
    }
    assert_eq!(request.port, 31 * 256 + 64);
}

#[test]
fn unsupported_address_type_yields_rep_8_and_no_connection() {
    let msg = vec![5u8, 1u8, 0u8, 2u8, 93u8, 184u8, 216u8, 34u8, 0u8, 80u8];
    let err = parse_request(&msg).unwrap_err();
    assert_eq!(err, ProtocolError::UnsupportedAddressType);
    let code = reply_code_for_protocol_error(&err).unwrap();
    assert_eq!(code, ReplyCode::AddressTypeNotSupported);
    assert_eq!(code.to_u8(), 8u8);
    assert_eq!(
        encode_failure_reply(&code),
        vec![5u8, 8u8, 0u8, 1u8, 0u8, 0u8, 0u8, 0u8, 0u8, 0u8],
    );
}

#[test]
fn unsupported_command_yields_rep_7() {
    let msg = vec![5u8, 2u8, 0u8, 1u8, 127u8, 0u8, 0u8, 1u8, 0u8, 80u8];
    let err = parse_request(&msg).unwrap_err();
    assert_eq!(err, ProtocolError::UnsupportedCommand);
    let code = reply_code_for_protocol_error(&err).unwrap();
    assert_eq!(code.to_u8(), 7u8);
}

#[test]
fn bad_version_and_truncation_get_no_reply_code() {
    let bad = vec![4u8, 1u8, 0u8, 1u8, 0u8, 0u8, 0u8, 0u8, 0u8, 0u8];
    let err = parse_request(&bad).unwrap_err();
    assert_eq!(err, ProtocolError::BadVersion);
    assert_eq!(reply_code_for_protocol_error(&err), None);

    // An IPv4 request cut off inside the address bytes.
    let short = vec![5u8, 1u8, 0u8, 1u8, 93u8, 184u8];
    let err = parse_request(&short).unwrap_err();
    assert_eq!(err, ProtocolError::Truncated);
    assert_eq!(reply_code_for_protocol_error(&err), None);

    // A domain request cut off inside the name bytes.
    let mut short_domain = vec![5u8, 1u8, 0u8, 3u8, 11u8];
    short_domain.extend_from_slice(b"exam");
    assert_eq!(parse_request(&short_domain).unwrap_err(), ProtocolError::Truncated);

    // An IPv6 request cut off inside the port bytes.
    let mut short_v6 = vec![5u8, 1u8, 0u8, 4u8];
    short_v6.extend_from_slice(&[0u8; 16]);
    short_v6.push(0u8);
    assert_eq!(parse_request(&short_v6).unwrap_err(), ProtocolError::Truncated);
}

#[test]
fn connect_failures_map_to_their_reply_codes() {
    let cases = vec![
        (ConnectErrorKind::ConnectionRefused, 5u8),
        (ConnectErrorKind::NetworkUnreachable, 3u8),
        (ConnectErrorKind::HostUnreachable, 4u8),
        (ConnectErrorKind::TtlExpired, 6u8),
        (ConnectErrorKind::NotAllowed, 2u8),
        (ConnectErrorKind::Other, 1u8),
    ];
    for (kind, byte) in cases {
        assert_eq!(reply_code_for_connect_error(&kind).to_u8(), byte);
    }
}

#[test]
fn failure_reply_carries_the_zero_address() {
    assert_eq!(
        encode_failure_reply(&ReplyCode::ConnectionRefused),
        vec![5u8, 5u8, 0u8, 1u8, 0u8, 0u8, 0u8, 0u8, 0u8, 0u8],
    );
}
