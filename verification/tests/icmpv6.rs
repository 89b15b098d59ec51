use peel_ip::layer::DecodeOutcome;
use peel_ip::layer::InvalidKind;
use peel_ip::layer::Layer;
use peel_ip::layer::Needed;
use peel_ip::layer2::icmp::IcmpEcho;
use peel_ip::layer2::icmpv6::Icmpv6Data;
use peel_ip::layer2::icmpv6::Icmpv6Packet;
use peel_ip::layer2::icmpv6::Icmpv6Parser;
use peel_ip::layer2::icmpv6::Icmpv6Type;

static ICMPV6_REQUEST: &'static [u8] = &[
    0x80, 0x00, 0x41, 0x5c, 0x02, 0x00, 0x0a, 0x00, 0x61, 0x62, 0x63, 0x64, 0x65, 0x66, 0x67,
    0x68, 0x69, 0x6a, 0x6b, 0x6c, 0x6d, 0x6e, 0x6f, 0x70, 0x71, 0x72, 0x73, 0x74, 0x75, 0x76,
    0x77, 0x61, 0x62, 0x63, 0x64, 0x65, 0x66, 0x67, 0x68, 0x69,
];

#[test]
fn parse_icmpv6_request_success() {
    let parser = Icmpv6Parser;
    println!("{:?}", parser);
    let packet = match parser.parse(ICMPV6_REQUEST, None) {
        DecodeOutcome::Decoded(Layer::Icmpv6(packet), consumed, _) => {
            assert_eq!(consumed, ICMPV6_REQUEST.len());
            packet
        },
        other => panic!("expected a decoded ICMPv6 packet, got {:?}", other),
    };
    assert_eq!(
        Icmpv6Packet {
            message_type: Icmpv6Type::EchoRequest,
            code: 0,
            checksum: 16732,
            data: Some(Icmpv6Data::Echo(IcmpEcho {
                identifier: 512,
                sequence_number: 2560,
                payload: Some(b"abcdefghijklmnopqrstuvwabcdefghi".to_vec()),
            })),
        },
        packet
    );
}

#[test]
fn parse_icmpv6_reply_success() {
    let parser = Icmpv6Parser;
    let mut input = Vec::from(ICMPV6_REQUEST);
    input[0] = 129;
    let packet = match parser.parse(&input, None) {
        DecodeOutcome::Decoded(Layer::Icmpv6(packet), consumed, _) => {
            assert_eq!(consumed, input.len());
            packet
        },
        other => panic!("expected a decoded ICMPv6 packet, got {:?}", other),
    };
    assert_eq!(
        Icmpv6Packet {
            message_type: Icmpv6Type::EchoReply,
            code: 0,
            checksum: 16732,
            data: Some(Icmpv6Data::Echo(IcmpEcho {
                identifier: 512,
                sequence_number: 2560,
                payload: Some(b"abcdefghijklmnopqrstuvwabcdefghi".to_vec()),
            })),
        },
        packet
    );
}

#[test]
fn parse_icmpv6_failure_wrong_icmpv6_type() {
    let parser = Icmpv6Parser;
    let mut input = Vec::from(ICMPV6_REQUEST);
    input[0] = 1;
    assert_eq!(
        parser.parse(&input, None),
        DecodeOutcome::Invalid(InvalidKind::UnknownCode, 0)
    );
}

#[test]
fn parse_icmpv6_failure_too_small() {
    let parser = Icmpv6Parser;
    assert_eq!(
        parser.parse(&ICMPV6_REQUEST[..7], None),
        DecodeOutcome::NeedMoreData(Needed::Size(8))
    );
}
