use socks5_core::address::{
    decode_address, encode_address, Address, ProtocolError, SocketAddress,
};
use socks5_core::handshake::{
    check_chosen_method, decode_handshake_response, encode_handshake_request,
    AuthenticationError, HandshakeRequest, HandshakeResponse,
};
use socks5_core::tcp::{
    check_reply, decode_tcp_response, encode_tcp_request, Command, ReplyCode, TcpRequestHeader,
    TcpResponseHeader,
};
use socks5_core::udp::{decode_udp_frame, encode_udp_frame, UdpFrame};

fn v4(a: u8, b: u8, c: u8, d: u8, port: u16) -> SocketAddress {
    SocketAddress::new_v4(vec![a, b, c, d], port).unwrap()
}

fn roundtrip_addr(addr: &Address) {
    let mut buf: Vec<u8> = Vec::new();
    encode_address(addr, &mut buf);
    let (decoded, end) = decode_address(&buf, 0).unwrap();
    assert_eq!(end, buf.len());
    assert!(decoded.same_as(addr));
}

#[test]
fn address_v4_round_trip() {
    roundtrip_addr(&Address::Literal(v4(127, 0, 0, 1, 80)));
}

#[test]
fn address_v6_round_trip() {
    let octets: Vec<u8> = (1u8..=16u8).collect();
    let sa = SocketAddress::new_v6(octets, 443).unwrap();
    roundtrip_addr(&Address::Literal(sa));
}

#[test]
fn address_domain_round_trip() {
    let addr = Address::new_domain(b"example.com".to_vec(), 53).unwrap();
    roundtrip_addr(&addr);
}

#[test]
fn address_domain_max_length_round_trip() {
    let name: Vec<u8> = vec![b'a'; 255];
    let addr = Address::new_domain(name, 65535).unwrap();
    roundtrip_addr(&addr);
}

#[test]
fn address_v4_exact_bytes() {
    let mut buf: Vec<u8> = Vec::new();
    encode_address(&Address::Literal(v4(127, 0, 0, 1, 80)), &mut buf);
    assert_eq!(buf, vec![0x01, 127, 0, 0, 1, 0, 80]);
}

#[test]
fn address_domain_exact_bytes() {
    let addr = Address::new_domain(b"ab".to_vec(), 0x1234).unwrap();
    let mut buf: Vec<u8> = Vec::new();
    encode_address(&addr, &mut buf);
    assert_eq!(buf, vec![0x03, 2, b'a', b'b', 0x12, 0x34]);
}

#[test]
fn address_rejects_unknown_type_byte() {
    let buf = vec![0x02u8, 0, 0, 0, 0, 0, 0];
    assert!(matches!(
        decode_address(&buf, 0),
        Err(ProtocolError::UnsupportedAddressType)
    ));
}

#[test]
fn address_rejects_truncated() {
    assert!(matches!(
        decode_address(&Vec::new(), 0),
        Err(ProtocolError::Truncated)
    ));
    assert!(matches!(
        decode_address(&vec![0x01u8, 127, 0, 0, 1], 0),
        Err(ProtocolError::Truncated)
    ));
    // Domain of announced length 5 with only 3 name bytes present.
    assert!(matches!(
        decode_address(&vec![0x03u8, 5, b'a', b'b', b'c'], 0),
        Err(ProtocolError::Truncated)
    ));
}

#[test]
fn oversized_domain_is_refused() {
    assert!(Address::new_domain(vec![b'a'; 256], 1).is_none());
    assert!(SocketAddress::new_v4(vec![1, 2, 3], 1).is_none());
    assert!(SocketAddress::new_v6(vec![1, 2, 3], 1).is_none());
}

#[test]
fn handshake_request_exact_bytes() {
    let req = HandshakeRequest::new(vec![0x00]).unwrap();
    let mut buf: Vec<u8> = Vec::new();
    encode_handshake_request(&req, &mut buf);
    assert_eq!(buf, vec![0x05, 0x01, 0x00]);
}

#[test]
fn handshake_request_needs_a_method() {
    assert!(HandshakeRequest::new(Vec::new()).is_none());
    assert!(HandshakeRequest::new(vec![0u8; 256]).is_none());
}

#[test]
fn handshake_response_decodes() {
    let (resp, end) = decode_handshake_response(&vec![0x05, 0x00], 0).unwrap();
    assert_eq!(end, 2);
    assert_eq!(resp, HandshakeResponse { chosen_method: 0x00 });
}

#[test]
fn handshake_response_rejects_bad_version() {
    assert_eq!(
        decode_handshake_response(&vec![0x04, 0x00], 0),
        Err(ProtocolError::VersionMismatch)
    );
    assert_eq!(
        decode_handshake_response(&vec![0x05], 0),
        Err(ProtocolError::Truncated)
    );
}

#[test]
fn negotiation_accepts_only_no_auth() {
    assert_eq!(
        check_chosen_method(&HandshakeResponse { chosen_method: 0x00 }),
        Ok(())
    );
    assert_eq!(
        check_chosen_method(&HandshakeResponse { chosen_method: 0xff }),
        Err(AuthenticationError::MethodRejected(0xff))
    );
    // A method outside the offered set is rejected with its own byte.
    assert_eq!(
        check_chosen_method(&HandshakeResponse { chosen_method: 0x05 }),
        Err(AuthenticationError::MethodRejected(0x05))
    );
}

#[test]
fn tcp_request_exact_bytes() {
    let h = TcpRequestHeader::new(Command::Connect, Address::Literal(v4(127, 0, 0, 1, 80)));
    let mut buf: Vec<u8> = Vec::new();
    encode_tcp_request(&h, &mut buf);
    assert_eq!(buf, vec![0x05, 0x01, 0x00, 0x01, 127, 0, 0, 1, 0, 80]);
}

#[test]
fn tcp_command_bytes() {
    let target = || Address::Literal(v4(1, 2, 3, 4, 9));
    for (cmd, byte) in [
        (Command::Connect, 0x01u8),
        (Command::Bind, 0x02),
        (Command::UdpAssociate, 0x03),
    ] {
        let mut buf: Vec<u8> = Vec::new();
        encode_tcp_request(&TcpRequestHeader::new(cmd, target()), &mut buf);
        assert_eq!(buf[1], byte);
    }
}

#[test]
fn tcp_response_succeeded() {
    let buf = vec![0x05, 0x00, 0x00, 0x01, 10, 0, 0, 1, 0x1f, 0x90];
    let (resp, end) = decode_tcp_response(&buf, 0).unwrap();
    assert_eq!(end, buf.len());
    assert_eq!(resp.reply, ReplyCode::Succeeded);
    assert!(resp.address.same_as(&Address::Literal(v4(10, 0, 0, 1, 8080))));
}

#[test]
fn tcp_response_host_unreachable() {
    let buf = vec![0x05, 0x04, 0x00, 0x01, 0, 0, 0, 0, 0, 0];
    let (resp, _) = decode_tcp_response(&buf, 0).unwrap();
    assert_eq!(resp.reply, ReplyCode::HostUnreachable);
}

#[test]
fn tcp_response_unrecognized_reply_does_not_fail() {
    let buf = vec![0x05, 0x09, 0x00, 0x01, 0, 0, 0, 0, 0, 0];
    let (resp, _) = decode_tcp_response(&buf, 0).unwrap();
    assert_eq!(resp.reply, ReplyCode::Unrecognized(9));
}

#[test]
fn tcp_response_rejects_bad_version() {
    let buf = vec![0x06, 0x00, 0x00, 0x01, 0, 0, 0, 0, 0, 0];
    assert!(matches!(
        decode_tcp_response(&buf, 0),
        Err(ProtocolError::VersionMismatch)
    ));
}

#[test]
fn udp_frame_round_trip() {
    let addr = Address::new_domain(b"example.com".to_vec(), 53).unwrap();
    let frame = UdpFrame::new(0, addr, vec![1, 2, 3]);
    let mut buf: Vec<u8> = Vec::new();
    encode_udp_frame(&frame, &mut buf);
    let decoded = decode_udp_frame(&buf).unwrap();
    assert_eq!(decoded.fragment, 0);
    assert!(decoded.address.same_as(&frame.address));
    assert_eq!(decoded.payload, vec![1, 2, 3]);
}

#[test]
fn udp_frame_empty_payload_round_trip() {
    let frame = UdpFrame::new(0, Address::Literal(v4(8, 8, 8, 8, 53)), Vec::new());
    let mut buf: Vec<u8> = Vec::new();
    encode_udp_frame(&frame, &mut buf);
    assert_eq!(buf.len(), 3 + 7);
    let decoded = decode_udp_frame(&buf).unwrap();
    assert!(decoded.address.same_as(&frame.address));
    assert!(decoded.payload.is_empty());
}

#[test]
fn udp_frame_rejects_truncated() {
    assert!(matches!(
        decode_udp_frame(&vec![0, 0]),
        Err(ProtocolError::Truncated)
    ));
    assert!(matches!(
        decode_udp_frame(&vec![0, 0, 0, 0x01, 1, 2]),
        Err(ProtocolError::Truncated)
    ));
}

#[test]
fn decode_at_offset() {
    let mut buf = vec![0xaa, 0xbb];
    encode_address(&Address::Literal(v4(9, 9, 9, 9, 7)), &mut buf);
    let (decoded, end) = decode_address(&buf, 2).unwrap();
    assert_eq!(end, buf.len());
    assert!(decoded.same_as(&Address::Literal(v4(9, 9, 9, 9, 7))));
}

#[test]
fn reply_check_surfaces_the_code() {
    let ok = TcpResponseHeader {
        reply: ReplyCode::Succeeded,
        address: Address::Literal(v4(0, 0, 0, 0, 0)),
    };
    assert_eq!(check_reply(&ok), Ok(()));

    let failed = TcpResponseHeader {
        reply: ReplyCode::HostUnreachable,
        address: Address::Literal(v4(0, 0, 0, 0, 0)),
    };
    assert_eq!(check_reply(&failed), Err(ReplyCode::HostUnreachable));
}

#[test]
fn address_empty_domain_round_trip() {
    let addr = Address::new_domain(Vec::new(), 7).unwrap();
    roundtrip_addr(&addr);
}

#[test]
fn address_v6_exact_bytes_max_port() {
    let sa = SocketAddress::new_v6(vec![0u8; 16], 65535).unwrap();
    let mut buf: Vec<u8> = Vec::new();
    encode_address(&Address::Literal(sa), &mut buf);
    let mut expected = vec![0x04u8];
    expected.extend([0u8; 16]);
    expected.extend([0xff, 0xff]);
    assert_eq!(buf, expected);
}

#[test]
fn udp_frame_nonzero_fragment_round_trips() {
    let frame = UdpFrame::new(5, Address::Literal(v4(1, 1, 1, 1, 1)), vec![9]);
    let mut buf: Vec<u8> = Vec::new();
    encode_udp_frame(&frame, &mut buf);
    let decoded = decode_udp_frame(&buf).unwrap();
    assert_eq!(decoded.fragment, 5);
    assert_eq!(decoded.payload, vec![9]);
}

#[test]
fn udp_frame_exact_bytes() {
    let frame = UdpFrame::new(0, Address::Literal(v4(1, 2, 3, 4, 0x0102)), vec![0xaa, 0xbb]);
    let mut buf: Vec<u8> = Vec::new();
    encode_udp_frame(&frame, &mut buf);
    assert_eq!(
        buf,
        vec![0x00, 0x00, 0x00, 0x01, 1, 2, 3, 4, 0x01, 0x02, 0xaa, 0xbb]
    );
}
