use peel_ip::layer::DecodeOutcome;
use peel_ip::layer::Layer;
use peel_ip::layer::Needed;
use peel_ip::layer3::udp::UdpHeader;
use peel_ip::layer3::udp::UdpPacket;
use peel_ip::layer3::udp::UdpParser;
use peel_ip::track::NoTracker;

static UDP_HEADER: &'static [u8] = &[0x00, 0x35, 0xc7, 0xde, 0x00, 0x92, 0xad, 0x1b];

#[test]
fn parse_udp_success() {
    let parser = UdpParser;
    println!("{:?}", parser);
    let mut tracker = NoTracker;
    let packet = match parser.parse(UDP_HEADER, None, &mut tracker) {
        DecodeOutcome::Decoded(Layer::Udp(packet), 8, _) => packet,
        other => panic!("expected a decoded UDP packet, got {:?}", other),
    };
    assert_eq!(
        UdpPacket {
            header: UdpHeader {
                source_port: 53,
                dest_port: 51166,
                length: 146,
                checksum: 44315,
            },
            path_error: None,
        },
        packet
    );
}

#[test]
fn parse_udp_failure_too_small() {
    let parser = UdpParser;
    let mut tracker = NoTracker;
    let mut input = Vec::from(UDP_HEADER);
    input.pop();
    assert_eq!(
        parser.parse(&input, None, &mut tracker),
        DecodeOutcome::NeedMoreData(Needed::Size(8))
    );
}
