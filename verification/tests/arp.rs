use peel_ip::addr::Ipv4Address;
use peel_ip::layer::DecodeOutcome;
use peel_ip::layer::InvalidKind;
use peel_ip::layer::Layer;
use peel_ip::layer::Needed;
use peel_ip::layer1::arp::ArpHardwareType;
use peel_ip::layer1::arp::ArpOperation;
use peel_ip::layer1::arp::ArpPacket;
use peel_ip::layer1::arp::ArpParser;
use peel_ip::layer1::ethernet::EtherType;
use peel_ip::layer1::ethernet::MacAddress;

static ARP_REQUEST: &'static [u8] = &[
    0x00, 0x01, 0x08, 0x00, 0x06, 0x04, 0x00, 0x01, 0x00, 0x07, 0x0d, 0xaf, 0xf4, 0x54, 0x18,
    0xa6, 0xac, 0x01, 0x00, 0x00, 0x00, 0x00, 0x00, 0x00, 0x18, 0xa6, 0xad, 0x9f,
];

static RARP_REQUEST: &'static [u8] = &[
    0x00, 0x01, 0x08, 0x00, 0x06, 0x04, 0x00, 0x03, 0x00, 0x0c, 0x29, 0x34, 0x0b, 0xde, 0x00,
    0x00, 0x00, 0x00, 0x00, 0x0c, 0x29, 0x34, 0x0b, 0xde, 0x00, 0x00, 0x00, 0x00,
];

#[test]
fn parse_arp_success() {
    let parser = ArpParser;
    println!("{:?}", parser);
    let mut input = Vec::from(ARP_REQUEST);
    let packet = match parser.parse(&input, None) {
        DecodeOutcome::Decoded(Layer::Arp(packet), 28, _) => packet,
        other => panic!("expected a decoded ARP packet, got {:?}", other),
    };
    assert_eq!(
        ArpPacket {
            hardware_type: ArpHardwareType::Ethernet,
            protocol_type: EtherType::Ipv4,
            hardware_length: 6,
            protocol_length: 4,
            operation: ArpOperation::Request,
            sender_hardware_address: MacAddress(0, 7, 13, 175, 244, 84),
            sender_protocol_address: Ipv4Address::new(24, 166, 172, 1),
            target_hardware_address: MacAddress(0, 0, 0, 0, 0, 0),
            target_protocol_address: Ipv4Address::new(24, 166, 173, 159),
        },
        packet
    );
    input[7] = 2;
    assert!(matches!(
        parser.parse(&input, None),
        DecodeOutcome::Decoded(Layer::Arp(_), _, _)
    ));
}

#[test]
fn parse_rarp_success() {
    let parser = ArpParser;
    let mut input = Vec::from(RARP_REQUEST);
    let packet = match parser.parse(&input, None) {
        DecodeOutcome::Decoded(Layer::Arp(packet), 28, _) => packet,
        other => panic!("expected a decoded ARP packet, got {:?}", other),
    };
    assert_eq!(
        ArpPacket {
            hardware_type: ArpHardwareType::Ethernet,
            protocol_type: EtherType::Ipv4,
            hardware_length: 6,
            protocol_length: 4,
            operation: ArpOperation::ReverseRequest,
            sender_hardware_address: MacAddress(0, 12, 41, 52, 11, 222),
            sender_protocol_address: Ipv4Address::new(0, 0, 0, 0),
            target_hardware_address: MacAddress(0, 12, 41, 52, 11, 222),
            target_protocol_address: Ipv4Address::new(0, 0, 0, 0),
        },
        packet
    );
    input[7] = 4;
    assert!(matches!(
        parser.parse(&input, None),
        DecodeOutcome::Decoded(Layer::Arp(_), _, _)
    ));
}

#[test]
fn parse_arp_failure_too_small() {
    let parser = ArpParser;
    let mut input = Vec::from(ARP_REQUEST);
    input.pop();
    assert_eq!(
        parser.parse(&input, None),
        DecodeOutcome::NeedMoreData(Needed::Size(28))
    );
}

#[test]
fn parse_arp_failure_wrong_hardware_type() {
    let parser = ArpParser;
    let mut input = Vec::from(ARP_REQUEST);
    input[1] = 0;
    assert_eq!(
        parser.parse(&input, None),
        DecodeOutcome::Invalid(InvalidKind::UnknownCode, 0)
    );
}

#[test]
fn parse_arp_failure_wrong_operation() {
    let parser = ArpParser;
    let mut input = Vec::from(ARP_REQUEST);
    input[7] = 0;
    assert_eq!(
        parser.parse(&input, None),
        DecodeOutcome::Invalid(InvalidKind::UnknownCode, 6)
    );
}
