use peel_ip::addr::Ipv4Address;
use peel_ip::layer::DecodeOutcome;
use peel_ip::layer::InvalidKind;
use peel_ip::layer::Layer;
use peel_ip::layer::Needed;
use peel_ip::layer2::ipv4::IpProtocol;
use peel_ip::layer2::ipv4::Ipv4Packet;
use peel_ip::layer2::ipv4::Ipv4Parser;

static IPV4_HEADER: &'static [u8] = &[
    0x45, 0x00, 0x01, 0xa5, 0xd6, 0x63, 0x40, 0x00, 0x3f, 0x06, 0x9b, 0xfc, 0xc0, 0xa8, 0x01,
    0x0a, 0xad, 0xfc, 0x58, 0x44,
];

#[test]
fn parse_ipv4_success() {
    let parser = Ipv4Parser;
    println!("{:?}", parser);
    let packet = match parser.parse(IPV4_HEADER, None) {
        DecodeOutcome::Decoded(Layer::Ipv4(packet), 20, _) => packet,
        other => panic!("expected a decoded IPv4 header, got {:?}", other),
    };
    assert_eq!(
        Ipv4Packet {
            version: 4,
            ihl: 20,
            tos: 0,
            length: 421,
            id: 54883,
            flags: 2,
            fragment_offset: 0,
            ttl: 63,
            protocol: IpProtocol::Tcp,
            checksum: 39932,
            src: Ipv4Address::new(192, 168, 1, 10),
            dst: Ipv4Address::new(173, 252, 88, 68),
        },
        packet
    );
}

#[test]
fn parse_ipv4_success_ipprotocols() {
    let parser = Ipv4Parser;
    // TCP
    let mut input = Vec::from(IPV4_HEADER);
    assert!(matches!(
        parser.parse(&input, None),
        DecodeOutcome::Decoded(Layer::Ipv4(_), _, _)
    ));

    // UDP
    input[9] = 17;
    assert!(matches!(
        parser.parse(&input, None),
        DecodeOutcome::Decoded(Layer::Ipv4(_), _, _)
    ));
}

#[test]
fn parse_ipv4_failure_wrong_version() {
    let parser = Ipv4Parser;
    let mut input = Vec::from(IPV4_HEADER);
    input[0] = 0x55;
    assert_eq!(
        parser.parse(&input, None),
        DecodeOutcome::Invalid(InvalidKind::TagMismatch, 0)
    );
}

#[test]
fn parse_ipv4_failure_wrong_ipprotocol() {
    let parser = Ipv4Parser;
    let mut input = Vec::from(IPV4_HEADER);
    input[9] = 0xff;
    assert_eq!(
        parser.parse(&input, None),
        DecodeOutcome::Invalid(InvalidKind::UnknownCode, 9)
    );
}

#[test]
fn parse_ipv4_failure_too_small() {
    let parser = Ipv4Parser;
    let mut input = Vec::from(IPV4_HEADER);
    input.pop();
    assert_eq!(
        parser.parse(&input, None),
        DecodeOutcome::NeedMoreData(Needed::Size(20))
    );
}
