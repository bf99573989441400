use merdia::addr::{unmap_legacy_addr, SocketAddr};
use merdia::codec::{decode_request, Attribute, Message, MessageClass, Request, DESCRIPTION};
use merdia::stun::{
    Error, Server, ServerAction, ServerEvent, ServerState, Transport, UDP_BUFFER_LEN,
};
use merdia::wire::{BINDING, ERROR_CODE, RESPONSE_ORIGIN, SOFTWARE, XOR_MAPPED_ADDRESS};
use stun_codec::rfc5389::attributes::{ErrorCode, Software, XorMappedAddress};
use stun_codec::rfc5780::attributes::ResponseOrigin;

const ID: [u8; 12] = [
    0xb7, 0xe7, 0xa7, 0x01, 0xbc, 0x34, 0xd6, 0x86, 0xfa, 0x87, 0xdf, 0xae,
];

fn message(kind: u16, announced: u16, body: &[u8]) -> Vec<u8> {
    let mut bytes = Vec::new();
    bytes.extend_from_slice(&kind.to_be_bytes());
    bytes.extend_from_slice(&announced.to_be_bytes());
    bytes.extend_from_slice(&[0x21, 0x12, 0xa4, 0x42]);
    bytes.extend_from_slice(&ID);
    bytes.extend_from_slice(body);
    bytes
}

fn request(kind: u16, body: &[u8]) -> Vec<u8> {
    message(kind, body.len() as u16, body)
}

fn attribute(code: u16, value: &[u8]) -> Vec<u8> {
    let mut bytes = Vec::new();
    bytes.extend_from_slice(&code.to_be_bytes());
    bytes.extend_from_slice(&(value.len() as u16).to_be_bytes());
    bytes.extend_from_slice(value);
    while bytes.len() % 4 != 0 {
        bytes.push(0);
    }
    bytes
}

fn v4() -> SocketAddr {
    SocketAddr::V4 {
        ip: [192, 0, 2, 1],
        port: 32853,
    }
}

fn v6() -> SocketAddr {
    SocketAddr::V6 {
        ip: [
            0x20, 0x01, 0x0d, 0xb8, 0x12, 0x34, 0x56, 0x78, 0x00, 0x11, 0x22, 0x33, 0x44, 0x55,
            0x66, 0x77,
        ],
        port: 32853,
        flowinfo: 0,
        scope_id: 0,
    }
}

fn mapped_v4() -> SocketAddr {
    SocketAddr::V6 {
        ip: [0, 0, 0, 0, 0, 0, 0, 0, 0, 0, 0xff, 0xff, 192, 0, 2, 1],
        port: 32853,
        flowinfo: 7,
        scope_id: 9,
    }
}

const MAPPED: [u8; 8] = [0, 1, 0xa1, 0x47, 0xe1, 0x12, 0xa6, 0x43];

fn software() -> Vec<u8> {
    attribute(0x8022, b"merdia")
}

fn answer(body: &[u8], peer: SocketAddr) -> Vec<u8> {
    Server::handle_message(&request(1, body), peer, None).unwrap()
}

fn is_unframed(buf: &[u8]) -> bool {
    matches!(
        Server::handle_message(buf, v4(), None),
        Err(Error::MessageDecode(_))
    )
}

fn is_broken(buf: &[u8]) -> bool {
    matches!(
        Server::handle_message(buf, v4(), None),
        Err(Error::MessageDecodeBroken)
    )
}

#[test]
fn numbers_are_those_of_the_codec() {
    assert_eq!(BINDING, stun_codec::rfc5389::methods::BINDING.as_u16());
    assert_eq!(ERROR_CODE, ErrorCode::CODEPOINT);
    assert_eq!(XOR_MAPPED_ADDRESS, XorMappedAddress::CODEPOINT);
    assert_eq!(SOFTWARE, Software::CODEPOINT);
    assert_eq!(RESPONSE_ORIGIN, ResponseOrigin::CODEPOINT);
    assert_eq!(DESCRIPTION, "merdia");
    assert_eq!(UDP_BUFFER_LEN, 4096);
}

#[test]
fn ipv4_client_learns_its_address() {
    let mut expected = message(0x0101, 24, &attribute(0x0020, &MAPPED));
    expected.extend_from_slice(&software());
    assert_eq!(answer(&[], v4()), expected);
}

#[test]
fn ipv6_client_learns_its_address() {
    let value = [
        0, 2, 0xa1, 0x47, 0x01, 0x13, 0xa9, 0xfa, 0xa5, 0xd3, 0xf1, 0x79, 0xbc, 0x25, 0xf4, 0xb5,
        0xbe, 0xd2, 0xb9, 0xd9,
    ];
    let mut expected = message(0x0101, 36, &attribute(0x0020, &value));
    expected.extend_from_slice(&software());
    assert_eq!(answer(&[], v6()), expected);
}

#[test]
fn mapped_client_is_answered_as_ipv4() {
    assert_eq!(answer(&[], mapped_v4()), answer(&[], v4()));
    assert_ne!(answer(&[], v6()), answer(&[], v4()));
}

#[test]
fn stream_answer_tells_its_origin() {
    let local = SocketAddr::V4 {
        ip: [10, 0, 0, 2],
        port: 3478,
    };
    let reply = Server::serve(Transport::Tcp, &request(1, &[]), v4(), Some(local)).unwrap();
    let mut expected = message(0x0101, 36, &attribute(0x0020, &MAPPED));
    expected.extend_from_slice(&attribute(0x802b, &[0, 1, 0x0d, 0x96, 10, 0, 0, 2]));
    expected.extend_from_slice(&software());
    assert_eq!(reply.to, None);
    assert_eq!(reply.bytes, expected);
}

#[test]
fn origin_is_told_as_the_socket_reports_it() {
    let reply = Server::handle_message(&request(1, &[]), v4(), Some(mapped_v4())).unwrap();
    let mut value = vec![0, 2, 0x80, 0x55];
    value.extend_from_slice(&[0, 0, 0, 0, 0, 0, 0, 0, 0, 0, 0xff, 0xff, 192, 0, 2, 1]);
    assert_eq!(&reply[32..56], attribute(0x802b, &value).as_slice());
}

#[test]
fn datagram_answer_goes_to_its_sender() {
    let reply = Server::serve(Transport::Udp, &request(1, &[]), mapped_v4(), Some(v4())).unwrap();
    assert_eq!(reply.to, Some(mapped_v4()));
    assert_eq!(reply.bytes, answer(&[], v4()));
}

#[test]
fn other_method_is_refused() {
    let reply = Server::handle_message(&request(0x0002, &[]), v4(), Some(v4())).unwrap();
    let mut value = vec![0, 0, 4, 0];
    value.extend_from_slice(b"Bad Request");
    let mut expected = message(0x0112, 32, &attribute(0x0009, &value));
    expected.extend_from_slice(&software());
    assert_eq!(reply, expected);
}

#[test]
fn refusal_misplaces_the_high_bits_of_the_method() {
    let reply = Server::handle_message(&request(0x0020, &[]), v4(), None).unwrap();
    assert_eq!(&reply[..2], &[0x03, 0x10]);
    let reply = Server::handle_message(&request(0x3eef, &[]), v4(), None).unwrap();
    assert_eq!(&reply[..2], &[0x0f, 0x1f]);
}

#[test]
fn class_of_a_message_does_not_matter() {
    for kind in [0x0001, 0x0011, 0x0101, 0x0111] {
        let reply = Server::handle_message(&request(kind, &[]), v4(), None).unwrap();
        assert_eq!(reply, answer(&[], v4()));
    }
}

#[test]
fn answer_can_be_read_again() {
    let reply = answer(&[], v6());
    let read = decode_request(&reply).unwrap().unwrap();
    assert_eq!(
        read,
        Request {
            method: 1,
            transaction_id: ID
        }
    );
}

#[test]
fn bytes_without_header_are_no_frame() {
    assert!(is_unframed(&[]));
    assert!(is_unframed(&request(1, &[])[..19]));
    let mut bytes = request(1, &[]);
    bytes[7] = 0x43;
    assert!(is_unframed(&bytes));
    assert!(is_unframed(&request(0x4001, &[])));
    assert!(is_unframed(&request(0x8001, &[])));
}

#[test]
fn bytes_after_the_end_are_no_frame() {
    assert!(is_unframed(&message(1, 0, &[0])));
    assert!(is_unframed(&message(1, 4, &[0x77, 0x77, 0, 0, 0])));
}

#[test]
fn half_of_the_announced_bytes_is_a_frame() {
    assert!(is_unframed(&message(1, 4, &[])));
    assert!(is_unframed(&message(1, 8, &[0x77, 0x77, 0])));
    assert!(is_broken(&message(1, 8, &[0x77, 0x77, 0, 0])));
    assert!(is_broken(&message(1, 8, &[0x77, 0x77, 0, 4, 1, 2, 3])));
    assert!(is_unframed(&message(1, 9, &[0x77, 0x77, 0, 4])));
}

#[test]
fn attributes_have_to_fill_the_message() {
    assert!(is_broken(&request(1, &[0x77])));
    assert!(is_broken(&request(1, &[0x77, 0x77, 0, 5, 1, 2, 3, 4])));
    assert!(is_broken(&request(1, &[0x77, 0x77, 0, 1, 1])));
    assert_eq!(
        answer(&[0x77, 0x77, 0, 1, 1, 9, 9, 9], v4()),
        answer(&[], v4())
    );
}

#[test]
fn unknown_attributes_are_passed_over() {
    assert_eq!(answer(&attribute(0x7777, &[1, 2, 3]), v4()), answer(&[], v4()));
    assert_eq!(answer(&attribute(0x8099, &[]), v4()), answer(&[], v4()));
}

#[test]
fn software_has_to_be_short_text() {
    assert_eq!(answer(&software(), v4()), answer(&[], v4()));
    assert!(is_broken(&request(1, &attribute(0x8022, &[0xff]))));
    let text = [b'x'; 128];
    assert_eq!(answer(&attribute(0x8022, &text[..127]), v4()), answer(&[], v4()));
    assert!(is_broken(&request(1, &attribute(0x8022, &text))));
    let wide = "\u{e9}".repeat(127);
    assert_eq!(answer(&attribute(0x8022, wide.as_bytes()), v4()), answer(&[], v4()));
}

#[test]
fn addresses_have_to_match_their_family() {
    for code in [0x0020, 0x802b] {
        let mut value = vec![0, 1, 0, 80, 1, 2, 3, 4];
        assert_eq!(answer(&attribute(code, &value), v4()), answer(&[], v4()));
        value[0] = 5;
        assert_eq!(answer(&attribute(code, &value), v4()), answer(&[], v4()));
        value[1] = 3;
        assert!(is_broken(&request(1, &attribute(code, &value))));
        value[1] = 2;
        assert!(is_broken(&request(1, &attribute(code, &value))));
        value.extend_from_slice(&[0; 12]);
        assert_eq!(answer(&attribute(code, &value), v4()), answer(&[], v4()));
        value[1] = 1;
        assert!(is_broken(&request(1, &attribute(code, &value))));
        assert!(is_broken(&request(1, &attribute(code, &[]))));
    }
}

#[test]
fn error_codes_have_to_be_in_range() {
    assert_eq!(answer(&attribute(0x0009, &[0, 0, 4, 99]), v4()), answer(&[], v4()));
    assert_eq!(answer(&attribute(0x0009, &[0, 0, 3, 0, b'x']), v4()), answer(&[], v4()));
    assert_eq!(answer(&attribute(0x0009, &[1, 2, 0xfd, 0]), v4()), answer(&[], v4()));
    assert!(is_broken(&request(1, &attribute(0x0009, &[0, 0, 2, 0]))));
    assert!(is_broken(&request(1, &attribute(0x0009, &[0, 0, 6, 0]))));
    assert!(is_broken(&request(1, &attribute(0x0009, &[0, 0, 4, 100]))));
    assert!(is_broken(&request(1, &attribute(0x0009, &[0, 0, 4]))));
    assert!(is_broken(&request(1, &attribute(0x0009, &[0, 0, 4, 0, 0xff]))));
}

#[test]
fn messages_are_written_by_class() {
    let kinds = [
        (MessageClass::Request, 0x0003),
        (MessageClass::Indication, 0x0013),
        (MessageClass::SuccessResponse, 0x0103),
        (MessageClass::ErrorResponse, 0x0113),
    ];
    for (class, kind) in kinds {
        let written = Message {
            class,
            method: 3,
            transaction_id: ID,
            attributes: vec![Attribute::Software],
        };
        assert_eq!(written.encode().unwrap(), request(kind, &software()));
    }
}

#[test]
fn messages_that_do_not_fit_are_not_written() {
    let written = Message {
        class: MessageClass::Request,
        method: 0x1000,
        transaction_id: ID,
        attributes: vec![],
    };
    assert!(written.encode().is_err());
    let mut long = Message {
        class: MessageClass::Request,
        method: 1,
        transaction_id: ID,
        attributes: vec![Attribute::Software; 5461],
    };
    assert_eq!(long.encode().unwrap().len(), 20 + 65532);
    long.attributes.push(Attribute::Software);
    assert!(long.encode().is_err());
}

#[test]
fn only_mapped_addresses_are_unmapped() {
    assert_eq!(unmap_legacy_addr(mapped_v4()), v4());
    assert_eq!(unmap_legacy_addr(v4()), v4());
    assert_eq!(unmap_legacy_addr(v6()), v6());
    assert_eq!(unmap_legacy_addr(unmap_legacy_addr(mapped_v4())), v4());
    let compatible = SocketAddr::V6 {
        ip: [0, 0, 0, 0, 0, 0, 0, 0, 0, 0, 0, 0, 192, 0, 2, 1],
        port: 1,
        flowinfo: 0,
        scope_id: 0,
    };
    assert_eq!(unmap_legacy_addr(compatible), compatible);
    let almost = SocketAddr::V6 {
        ip: [0, 0, 0, 0, 0, 0, 0, 0, 0, 1, 0xff, 0xff, 192, 0, 2, 1],
        port: 1,
        flowinfo: 0,
        scope_id: 0,
    };
    assert_eq!(unmap_legacy_addr(almost), almost);
}

#[test]
fn server_binds_and_serves() {
    let (state, action) = Server::new().start(v6());
    assert!(matches!(action, ServerAction::BindTcp(addr) if addr == v6()));
    let (state, action) = Server::step(state, ServerEvent::Bound(Ok(())));
    assert!(matches!(action, ServerAction::BindUdp(addr) if addr == v6()));
    let (state, action) = Server::step(state, ServerEvent::Bound(Ok(())));
    assert!(matches!(action, ServerAction::Wait));
    let (state, action) = Server::step(state, ServerEvent::Accepted(Ok(v4())));
    assert!(matches!(action, ServerAction::ServeStream(peer) if peer == v4()));
    let (state, action) = Server::step(state, ServerEvent::Received(Ok((20, v6()))));
    assert!(matches!(action, ServerAction::ServeDatagram(20, peer) if peer == v6()));
    assert_eq!(state, ServerState::Serving);
}

#[test]
fn failing_socket_ends_the_server() {
    let failure = || std::io::Error::from(std::io::ErrorKind::AddrInUse);
    let events = [
        (ServerState::BindingTcp(v4()), ServerEvent::Bound(Err(failure()))),
        (ServerState::BindingUdp, ServerEvent::Bound(Err(failure()))),
        (ServerState::Serving, ServerEvent::Accepted(Err(failure()))),
        (ServerState::Serving, ServerEvent::Received(Err(failure()))),
    ];
    for (state, event) in events {
        let (state, action) = Server::step(state, event);
        assert_eq!(state, ServerState::Stopped);
        assert!(matches!(
            action,
            ServerAction::Stop(Error::Io(error)) if error.kind() == std::io::ErrorKind::AddrInUse
        ));
    }
}
