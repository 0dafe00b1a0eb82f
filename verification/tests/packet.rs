use ya_rcon::packet::packet_id::ID;
use ya_rcon::packet::{
    Packet, PacketError, PacketType, MAX_PACKET_SIZE, MAX_PAYLOAD_SIZE, MIN_PACKET_SIZE,
};

fn auth_reply_bytes() -> Vec<u8> {
    vec![0x0au8, 0x00, 0x00, 0x00, 0x00, 0x00, 0x00, 0x00, 0x02, 0x00, 0x00, 0x00, 0x00, 0x00]
}

#[test]
fn packet_test_packet_size() {
    let body = String::from("test");
    let expected_length = body.len();
    let pkt = Packet::new(PacketType::Auth, body, ID::from(1)).unwrap();
    assert_eq!(
        pkt.get_size(),
        i32::try_from(expected_length + MIN_PACKET_SIZE).unwrap()
    );
}

#[test]
fn packet_test_auth_packet() {
    let pkt = Vec::from(
        Packet::new(PacketType::Auth, String::from("password"), ID::from(0)).unwrap(),
    );
    let expected_bytes = [
        0x12u8, 0x00, 0x00, 0x00, 0x00, 0x00, 0x00, 0x00, 0x03, 0x00, 0x00, 0x00, 0x70, 0x61,
        0x73, 0x73, 0x77, 0x6f, 0x72, 0x64, 0x00, 0x00,
    ];

    assert_eq!(&expected_bytes[..], &pkt[..]);
}

#[test]
fn packet_test_parse_auth_reply() {
    let raw_data = [
        0x0au8, 0x00, 0x00, 0x00, 0x00, 0x00, 0x00, 0x00, 0x02, 0x00, 0x00, 0x00, 0x00, 0x00,
    ];

    let pkt = Packet::try_from(&raw_data[..]).unwrap();

    let expected_packet =
        Packet::new_raw(PacketType::ExecOrAuthResp, String::new(), 10, ID::from(0));

    assert_eq!(expected_packet, pkt);
}

#[test]
fn mod_test_packet_size() {
    let body = String::from("test");
    let expected_length = body.len();
    let pkt = Packet::new(PacketType::Auth, body, ID::from(1)).unwrap();
    assert_eq!(
        pkt.get_size(),
        i32::try_from(expected_length + MIN_PACKET_SIZE).unwrap()
    );
}

#[test]
fn mod_test_auth_packet() {
    let pkt = Vec::from(
        Packet::new(PacketType::Auth, String::from("password"), ID::from(0)).unwrap(),
    );
    // Taken from a capture of a real exchange.
    let expected_bytes = [
        0x12u8, 0x00, 0x00, 0x00, 0x00, 0x00, 0x00, 0x00, 0x03, 0x00, 0x00, 0x00, 0x70, 0x61,
        0x73, 0x73, 0x77, 0x6f, 0x72, 0x64, 0x00, 0x00,
    ];

    assert_eq!(&expected_bytes[..], &pkt[..]);
}

#[test]
fn mod_test_parse_auth_reply() {
    let raw_data = [
        0x0au8, 0x00, 0x00, 0x00, 0x00, 0x00, 0x00, 0x00, 0x02, 0x00, 0x00, 0x00, 0x00, 0x00,
    ];

    let pkt = Packet::try_from(&raw_data[..]).unwrap();

    let expected_packet =
        Packet::new_raw(PacketType::ExecOrAuthResp, String::new(), 10, ID::from(0));

    assert_eq!(expected_packet, pkt);
}

#[test]
fn constants_have_the_protocol_values() {
    assert_eq!(MIN_PACKET_SIZE, 10);
    assert_eq!(MAX_PACKET_SIZE, 4100);
    assert_eq!(MAX_PAYLOAD_SIZE, 4090);
}

#[test]
fn parsed_auth_reply_has_the_fields_on_the_wire() {
    let pkt = Packet::try_from(&auth_reply_bytes()[..]).unwrap();
    assert_eq!(pkt.get_size(), 10);
    assert_eq!(pkt.get_id(), ID::from(0));
    assert_eq!(pkt.get_body(), "");
    assert_eq!(pkt.get_type(), PacketType::ExecCommand);
    assert_eq!(pkt.get_type(), PacketType::AuthResponse);
    assert!(matches!(pkt.get_type(), PacketType::ExecOrAuthResp));
}

#[test]
fn new_accepts_a_body_of_4089_bytes() {
    let body = "a".repeat(4089);
    let pkt = Packet::new(PacketType::ExecCommand, body.clone(), ID::from(3)).unwrap();
    assert_eq!(pkt.get_size(), 4099);
    assert_eq!(pkt.get_body(), body);
    assert_eq!(Vec::from(pkt).len(), 4103);
}

#[test]
fn new_refuses_a_body_of_4090_bytes() {
    let body = "a".repeat(4090);
    let result = Packet::new(PacketType::ExecCommand, body, ID::from(3));
    assert_eq!(result, Err(PacketError::InvalidPayloadLength));
}

#[test]
fn new_refuses_a_longer_body() {
    let body = "a".repeat(10_000);
    let result = Packet::new(PacketType::Auth, body, ID::from(0));
    assert_eq!(result, Err(PacketError::InvalidPayloadLength));
}

#[test]
fn new_counts_bytes_not_characters() {
    // 2045 characters of two bytes each: 4090 bytes.
    let body = "\u{e9}".repeat(2045);
    assert_eq!(body.len(), 4090);
    let result = Packet::new(PacketType::Auth, body, ID::from(0));
    assert_eq!(result, Err(PacketError::InvalidPayloadLength));
    let shorter = "\u{e9}".repeat(2044);
    let pkt = Packet::new(PacketType::Auth, shorter, ID::from(0)).unwrap();
    assert_eq!(pkt.get_size(), 4098);
}

#[test]
fn new_takes_an_empty_body() {
    let pkt = Packet::new(PacketType::ResponseValue, String::new(), ID::from(-1)).unwrap();
    assert_eq!(pkt.get_size(), 10);
    assert_eq!(
        Vec::from(pkt),
        vec![10u8, 0, 0, 0, 0xff, 0xff, 0xff, 0xff, 0, 0, 0, 0, 0, 0]
    );
}

#[test]
fn new_raw_keeps_a_size_that_does_not_fit() {
    let pkt = Packet::new_raw(PacketType::Raw(7), String::from("abc"), -5, ID::from(9));
    assert_eq!(pkt.get_size(), -5);
    assert_eq!(pkt.get_id(), ID::from(9));
    assert_eq!(pkt.get_body(), "abc");
    assert!(matches!(pkt.get_type(), PacketType::Raw(7)));
}

#[test]
fn encoding_writes_every_field_little_endian() {
    let pkt = Packet::new_raw(
        PacketType::Raw(0x0102_0304),
        String::from("hi"),
        0x1122_3344,
        ID::from(-2),
    );
    assert_eq!(
        Vec::from(pkt),
        vec![
            0x44u8, 0x33, 0x22, 0x11, 0xfe, 0xff, 0xff, 0xff, 0x04, 0x03, 0x02, 0x01, 0x68, 0x69,
            0x00, 0x00
        ]
    );
}

#[test]
fn encoding_writes_a_negative_size_as_it_is() {
    let pkt = Packet::new_raw(PacketType::Auth, String::new(), i32::MIN, ID::from(i32::MAX));
    assert_eq!(
        Vec::from(pkt),
        vec![0u8, 0, 0, 0x80, 0xff, 0xff, 0xff, 0x7f, 3, 0, 0, 0, 0, 0]
    );
}

#[test]
fn decoding_reads_negative_numbers() {
    let bytes = vec![0xfeu8, 0xff, 0xff, 0xff, 0xff, 0xff, 0xff, 0xff, 0, 0, 0, 0x80, 0x41, 0, 0];
    let pkt = Packet::try_from(&bytes[..]).unwrap();
    assert_eq!(pkt.get_size(), -2);
    assert_eq!(pkt.get_id(), ID::from(-1));
    assert!(matches!(pkt.get_type(), PacketType::Raw(i32::MIN)));
    assert_eq!(pkt.get_body(), "A");
}

#[test]
fn decoding_does_not_look_at_the_last_two_bytes() {
    let bytes = vec![11u8, 0, 0, 0, 1, 0, 0, 0, 0, 0, 0, 0, 0x41, 0x42, 0x43];
    let pkt = Packet::try_from(&bytes[..]).unwrap();
    assert_eq!(pkt.get_body(), "A");
    assert_eq!(pkt.get_size(), 11);
}

#[test]
fn decoding_keeps_a_size_that_is_less_than_the_bytes() {
    let bytes = vec![3u8, 0, 0, 0, 1, 0, 0, 0, 0, 0, 0, 0, 0x41, 0x42, 0, 0];
    let pkt = Packet::try_from(&bytes[..]).unwrap();
    assert_eq!(pkt.get_size(), 3);
    assert_eq!(pkt.get_body(), "AB");
    let negative = vec![0u8, 0, 0, 0x80, 1, 0, 0, 0, 0, 0, 0, 0, 0x41, 0, 0];
    let pkt = Packet::try_from(&negative[..]).unwrap();
    assert_eq!(pkt.get_size(), i32::MIN);
    assert_eq!(pkt.get_body(), "A");
}

#[test]
fn decoding_refuses_fewer_bytes_than_the_size_declares() {
    let one_short = vec![12u8, 0, 0, 0, 1, 0, 0, 0, 0, 0, 0, 0, 0x41, 0, 0];
    assert_eq!(
        Packet::try_from(&one_short[..]),
        Err(PacketError::ParseError)
    );
    let exact = vec![11u8, 0, 0, 0, 1, 0, 0, 0, 0, 0, 0, 0, 0x41, 0, 0];
    assert!(Packet::try_from(&exact[..]).is_ok());
    let far_short = vec![0xe8u8, 0x03, 0, 0, 1, 0, 0, 0, 0, 0, 0, 0, 0x41, 0, 0];
    assert_eq!(
        Packet::try_from(&far_short[..]),
        Err(PacketError::ParseError)
    );
    let greatest = vec![0xffu8, 0xff, 0xff, 0x7f, 1, 0, 0, 0, 0, 0, 0, 0, 0x41, 0, 0];
    assert_eq!(
        Packet::try_from(&greatest[..]),
        Err(PacketError::ParseError)
    );
}

#[test]
fn decoding_refuses_the_first_part_of_a_packet() {
    let whole = Vec::from(
        Packet::new(PacketType::ResponseValue, String::from("hello world"), ID::from(1)).unwrap(),
    );
    let mut length: usize = 0;
    while length < whole.len() {
        assert_eq!(
            Packet::try_from(&whole[..length]),
            Err(PacketError::ParseError)
        );
        length += 1;
    }
    assert!(Packet::try_from(&whole[..]).is_ok());
}

#[test]
fn too_few_bytes_are_told_before_a_bad_body() {
    let bytes = vec![12u8, 0, 0, 0, 1, 0, 0, 0, 0, 0, 0, 0, 0xff, 0, 0];
    assert_eq!(Packet::try_from(&bytes[..]), Err(PacketError::ParseError));
}

#[test]
fn decoding_refuses_fewer_than_14_bytes() {
    let full = auth_reply_bytes();
    let mut length: usize = 0;
    while length < 14 {
        assert_eq!(
            Packet::try_from(&full[..length]),
            Err(PacketError::ParseError)
        );
        length += 1;
    }
    assert!(Packet::try_from(&full[..14]).is_ok());
}

#[test]
fn decoding_refuses_a_body_that_is_not_utf8() {
    let bytes = vec![11u8, 0, 0, 0, 1, 0, 0, 0, 0, 0, 0, 0, 0xff, 0, 0];
    assert_eq!(
        Packet::try_from(&bytes[..]),
        Err(PacketError::InvalidPacketBody)
    );
    let cut_short = vec![11u8, 0, 0, 0, 1, 0, 0, 0, 0, 0, 0, 0, 0xc3, 0, 0];
    assert_eq!(
        Packet::try_from(&cut_short[..]),
        Err(PacketError::InvalidPacketBody)
    );
    let surrogate = vec![13u8, 0, 0, 0, 1, 0, 0, 0, 0, 0, 0, 0, 0xed, 0xa0, 0x80, 0, 0];
    assert_eq!(
        Packet::try_from(&surrogate[..]),
        Err(PacketError::InvalidPacketBody)
    );
    let overlong = vec![12u8, 0, 0, 0, 1, 0, 0, 0, 0, 0, 0, 0, 0xc0, 0x80, 0, 0];
    assert_eq!(
        Packet::try_from(&overlong[..]),
        Err(PacketError::InvalidPacketBody)
    );
    let overlong_three = vec![13u8, 0, 0, 0, 1, 0, 0, 0, 0, 0, 0, 0, 0xe0, 0x80, 0x80, 0, 0];
    assert_eq!(
        Packet::try_from(&overlong_three[..]),
        Err(PacketError::InvalidPacketBody)
    );
    let beyond = vec![14u8, 0, 0, 0, 1, 0, 0, 0, 0, 0, 0, 0, 0xf4, 0x90, 0x80, 0x80, 0, 0];
    assert_eq!(
        Packet::try_from(&beyond[..]),
        Err(PacketError::InvalidPacketBody)
    );
    let lone_continuation = vec![11u8, 0, 0, 0, 1, 0, 0, 0, 0, 0, 0, 0, 0x80, 0, 0];
    assert_eq!(
        Packet::try_from(&lone_continuation[..]),
        Err(PacketError::InvalidPacketBody)
    );
}

#[test]
fn decoding_accepts_the_edges_of_utf8() {
    let bodies = [
        "\u{0}",
        "\u{7f}",
        "\u{80}",
        "\u{7ff}",
        "\u{800}",
        "\u{d7ff}",
        "\u{e000}",
        "\u{ffff}",
        "\u{10000}",
        "\u{10ffff}",
    ];
    for body in bodies {
        let bytes =
            Vec::from(Packet::new(PacketType::ResponseValue, String::from(body), ID::from(1)).unwrap());
        let read = Packet::try_from(&bytes[..]).unwrap();
        assert_eq!(read.get_body(), body);
    }
}

#[test]
fn decoding_gives_the_text_of_a_utf8_body() {
    let bytes = vec![
        17u8, 0, 0, 0, 1, 0, 0, 0, 0, 0, 0, 0, 0x68, 0xc3, 0xa9, 0xe2, 0x82, 0xac, 0xf0, 0x9f,
        0x98, 0x80, 0, 0,
    ];
    let pkt = Packet::try_from(&bytes[..]).unwrap();
    assert_eq!(pkt.get_body(), "h\u{e9}\u{20ac}\u{1f600}");
    assert_eq!(Vec::from(pkt), bytes);
}

#[test]
fn a_packet_survives_the_wire() {
    let types = [
        PacketType::ResponseValue,
        PacketType::ExecCommand,
        PacketType::AuthResponse,
        PacketType::Auth,
        PacketType::ExecOrAuthResp,
        PacketType::Raw(2),
        PacketType::Raw(-7),
        PacketType::Raw(i32::MAX),
    ];
    let ids = [0i32, 1, -1, 42, i32::MAX, i32::MIN, -268435457];
    let bodies = [
        String::new(),
        String::from("status"),
        String::from("say \u{3053}\u{3093}\u{306b}\u{3061}\u{306f}"),
        "x".repeat(4089),
    ];
    for pkt_type in types {
        for id in ids {
            for body in &bodies {
                let sent = Packet::new(pkt_type, body.clone(), ID::from(id)).unwrap();
                let size = sent.get_size();
                let bytes = Vec::from(sent);
                assert_eq!(bytes.len(), body.len() + 14);
                let read = Packet::try_from(&bytes[..]).unwrap();
                assert_eq!(read.get_id(), ID::from(id));
                assert_eq!(read.get_type(), pkt_type);
                assert_eq!(&read.get_body(), body);
                assert_eq!(read.get_size(), size);
                assert_eq!(Vec::from(read), bytes);
            }
        }
    }
}

#[test]
fn the_wire_length_is_the_size_and_four() {
    let pkt = Packet::new(PacketType::ExecCommand, String::from("help"), ID::from(5)).unwrap();
    let size = usize::try_from(pkt.get_size()).unwrap();
    assert_eq!(size, 14);
    assert_eq!(Vec::from(pkt).len(), size + 4);
}

#[test]
fn get_body_gives_a_copy() {
    let pkt = Packet::new(PacketType::ExecCommand, String::from("help"), ID::from(5)).unwrap();
    let mut first = pkt.get_body();
    first.push('!');
    assert_eq!(first, "help!");
    assert_eq!(pkt.get_body(), "help");
}

#[test]
fn packets_are_equal_when_their_parts_are() {
    let a = Packet::new_raw(PacketType::ExecCommand, String::from("a"), 11, ID::from(1));
    let b = Packet::new_raw(PacketType::AuthResponse, String::from("a"), 11, ID::from(1));
    let other_size = Packet::new_raw(PacketType::ExecCommand, String::from("a"), 12, ID::from(1));
    let other_id = Packet::new_raw(PacketType::ExecCommand, String::from("a"), 11, ID::from(2));
    let other_body = Packet::new_raw(PacketType::ExecCommand, String::from("b"), 11, ID::from(1));
    let other_type = Packet::new_raw(PacketType::Auth, String::from("a"), 11, ID::from(1));
    assert_eq!(a, b);
    assert_ne!(a, other_size);
    assert_ne!(a, other_id);
    assert_ne!(a, other_body);
    assert_ne!(a, other_type);
}

#[test]
fn a_utf8_error_is_an_invalid_body() {
    let error = String::from_utf8(vec![0xffu8]).unwrap_err();
    assert_eq!(PacketError::from(error), PacketError::InvalidPacketBody);
}

#[test]
fn every_failure_has_its_name() {
    assert_eq!(PacketError::ParseError.name(), "ParseError");
    assert_eq!(PacketError::InvalidPacketBody.name(), "InvalidPacketBody");
    assert_eq!(PacketError::InvalidPayloadLength.name(), "InvalidPayloadLength");
    assert_eq!(PacketError::UnexpectedID.name(), "UnexpectedID");
    assert_eq!(PacketError::UnexpectedType.name(), "UnexpectedType");
}

#[test]
fn a_failure_is_named_as_it_is_printed() {
    let failures = [
        PacketError::ParseError,
        PacketError::InvalidPacketBody,
        PacketError::InvalidPayloadLength,
        PacketError::UnexpectedID,
        PacketError::UnexpectedType,
    ];
    for failure in failures {
        assert_eq!(failure.name(), format!("{:?}", failure));
    }
}
