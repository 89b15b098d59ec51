use peel_ip::layer::DecodeOutcome;
use peel_ip::layer::InvalidKind;
use peel_ip::layer::Layer;
use peel_ip::layer::Needed;
use peel_ip::layer2::icmp::IcmpData;
use peel_ip::layer2::icmp::IcmpEcho;
use peel_ip::layer2::icmp::IcmpPacket;
use peel_ip::layer2::icmp::IcmpParser;
use peel_ip::layer2::icmp::IcmpType;

static ICMP_REQUEST: &'static [u8] = &[
    0x08, 0x00, 0x41, 0x5c, 0x02, 0x00, 0x0a, 0x00, 0x61, 0x62, 0x63, 0x64, 0x65, 0x66, 0x67,
    0x68, 0x69, 0x6a, 0x6b, 0x6c, 0x6d, 0x6e, 0x6f, 0x70, 0x71, 0x72, 0x73, 0x74, 0x75, 0x76,
    0x77, 0x61, 0x62, 0x63, 0x64, 0x65, 0x66, 0x67, 0x68, 0x69,
];

#[test]
fn parse_icmp_request_success() {
    let parser = IcmpParser;
    println!("{:?}", parser);
    let packet = match parser.parse(ICMP_REQUEST, None) {
        DecodeOutcome::Decoded(Layer::Icmp(packet), consumed, _) => {
            assert_eq!(consumed, ICMP_REQUEST.len());
            packet
        },
        other => panic!("expected a decoded ICMP packet, got {:?}", other),
    };
    assert_eq!(
        IcmpPacket {
            message_type: IcmpType::EchoRequest,
            code: 0,
            checksum: 16732,
            data: Some(IcmpData::Echo(IcmpEcho {
                identifier: 512,
                sequence_number: 2560,
                payload: Some(b"abcdefghijklmnopqrstuvwabcdefghi".to_vec()),
            })),
        },
        packet
    );
}

#[test]
fn parse_icmp_reply_success() {
    let parser = IcmpParser;
    let mut input = Vec::from(ICMP_REQUEST);
    input[0] = 0;
    let packet = match parser.parse(&input, None) {
        DecodeOutcome::Decoded(Layer::Icmp(packet), consumed, _) => {
            assert_eq!(consumed, input.len());
            packet
        },
        other => panic!("expected a decoded ICMP packet, got {:?}", other),
    };
    assert_eq!(
        IcmpPacket {
            message_type: IcmpType::EchoReply,
            code: 0,
            checksum: 16732,
            data: Some(IcmpData::Echo(IcmpEcho {
                identifier: 512,
                sequence_number: 2560,
                payload: Some(b"abcdefghijklmnopqrstuvwabcdefghi".to_vec()),
            })),
        },
        packet
    );
}

#[test]
fn parse_icmp_failure_wrong_icmp_type() {
    let parser = IcmpParser;
    let mut input = Vec::from(ICMP_REQUEST);
    input[0] = 1;
    assert_eq!(
        parser.parse(&input, None),
        DecodeOutcome::Invalid(InvalidKind::UnknownCode, 0)
    );
}

#[test]
fn parse_icmp_failure_too_small() {
    let parser = IcmpParser;
    assert_eq!(
        parser.parse(&ICMP_REQUEST[..7], None),
        DecodeOutcome::NeedMoreData(Needed::Size(8))
    );
}

#[test]
fn parse_icmp_nonzero_code_has_no_body() {
    let parser = IcmpParser;
    let mut input = Vec::from(ICMP_REQUEST);
    input[1] = 5;
    let packet = match parser.parse(&input, None) {
        DecodeOutcome::Decoded(Layer::Icmp(packet), 4, _) => packet,
        other => panic!("expected a decoded ICMP packet, got {:?}", other),
    };
    assert_eq!(packet.code, 5);
    assert_eq!(packet.data, None);
}
