use peel_ip::layer::DecodeOutcome;
use peel_ip::layer::InvalidKind;
use peel_ip::layer::Layer;
use peel_ip::layer1::arp::ArpParser;
use peel_ip::layer1::ethernet::EthernetParser;
use peel_ip::layer2::icmp::IcmpParser;
use peel_ip::layer2::ipv4::Ipv4Parser;
use peel_ip::layer2::ipv6::Ipv6Parser;
use peel_ip::layer3::tcp::TcpParser;
use peel_ip::layer3::udp::UdpParser;
use peel_ip::layer4::ntp::NtpParser;
use peel_ip::track::NoTracker;

static ETH_ARP: &'static [u8] = &[1, 2, 3, 4, 5, 6, 7, 8, 9, 10, 11, 12, 8, 6];
static ETH_IPV4: &'static [u8] = &[1, 2, 3, 4, 5, 6, 7, 8, 9, 10, 11, 12, 8, 0];

static ARP_REQUEST: &'static [u8] = &[
    0x00, 0x01, 0x08, 0x00, 0x06, 0x04, 0x00, 0x01, 0x00, 0x07, 0x0d, 0xaf, 0xf4, 0x54, 0x18,
    0xa6, 0xac, 0x01, 0x00, 0x00, 0x00, 0x00, 0x00, 0x00, 0x18, 0xa6, 0xad, 0x9f,
];

static IPV4_TCP: &'static [u8] = &[
    0x45, 0x00, 0x01, 0xa5, 0xd6, 0x63, 0x40, 0x00, 0x3f, 0x06, 0x9b, 0xfc, 0xc0, 0xa8, 0x01,
    0x0a, 0xad, 0xfc, 0x58, 0x44,
];

static IPV6_TCP: &'static [u8] = &[
    0x60, 0x00, 0x00, 0x00, 0x00, 0x2f, 0x06, 0x40, 0x3f, 0xfe, 0x05, 0x07, 0x00, 0x00, 0x00,
    0x01, 0x02, 0x00, 0x86, 0xff, 0xfe, 0x05, 0x80, 0xda, 0x3f, 0xfe, 0x05, 0x01, 0x04, 0x10,
    0x00, 0x00, 0x02, 0xc0, 0xdf, 0xff, 0xfe, 0x47, 0x03, 0x3e,
];

static TCP_SEGMENT: &'static [u8] = &[
    0xca, 0x45, 0x01, 0xbb, 0x98, 0x66, 0x5f, 0x0a, 0x44, 0x9d, 0x7f, 0x05, 0x80, 0x18, 0x20,
    0x00, 0x0f, 0x1c, 0x00, 0x00, 0x01, 0x01, 0x08, 0x0a, 0x00, 0x02, 0x2c, 0x2e, 0x63, 0x93,
    0xf1, 0x5b,
];

static UDP_DATAGRAM: &'static [u8] = &[0x00, 0x35, 0xc7, 0xde, 0x00, 0x92, 0xad, 0x1b];

static ICMP_REQUEST: &'static [u8] = &[0x08, 0x00, 0x41, 0x5c, 0x02, 0x00, 0x0a, 0x00];

static NTP_FIXED: &'static [u8] = &[
    0x23, 0x00, 0x00, 0x00, 0x00, 0x00, 0x00, 0x0c, 0x00, 0x00, 0x00, 0x00, 0x00, 0x00, 0x00,
    0x00, 0x00, 0x00, 0x00, 0x00, 0x00, 0x00, 0x00, 0x00, 0x00, 0x00, 0x00, 0x00, 0x00, 0x00,
    0x00, 0x00, 0x00, 0x00, 0x00, 0x00, 0x00, 0x00, 0x00, 0x00, 0xcc, 0x25, 0xcc, 0x13, 0x2b,
    0x02, 0x10, 0x00,
];

fn decoded(outcome: DecodeOutcome) -> Layer {
    match outcome {
        DecodeOutcome::Decoded(layer, _, _) => layer,
        other => panic!("expected a decoded layer, got {:?}", other),
    }
}

#[test]
fn arp_parent_validation() {
    let parser = ArpParser;
    let atop_arp = vec![decoded(EthernetParser.parse(ETH_ARP, None))];
    assert!(matches!(
        parser.parse(ARP_REQUEST, Some(&atop_arp)),
        DecodeOutcome::Decoded(Layer::Arp(_), 28, _)
    ));
    let atop_ipv4 = vec![decoded(EthernetParser.parse(ETH_IPV4, None))];
    assert_eq!(
        parser.parse(ARP_REQUEST, Some(&atop_ipv4)),
        DecodeOutcome::Invalid(InvalidKind::ParentMismatch, 0)
    );
}

#[test]
fn ipv4_parent_validation() {
    let parser = Ipv4Parser;
    let atop_ipv4 = vec![decoded(EthernetParser.parse(ETH_IPV4, None))];
    assert!(matches!(
        parser.parse(IPV4_TCP, Some(&atop_ipv4)),
        DecodeOutcome::Decoded(Layer::Ipv4(_), 20, _)
    ));
    let atop_arp = vec![decoded(EthernetParser.parse(ETH_ARP, None))];
    assert_eq!(
        parser.parse(IPV4_TCP, Some(&atop_arp)),
        DecodeOutcome::Invalid(InvalidKind::ParentMismatch, 0)
    );
}

#[test]
fn icmp_parent_validation() {
    let parser = IcmpParser;
    let mut ipv4_icmp = Vec::from(IPV4_TCP);
    ipv4_icmp[9] = 1; // ICMP
    let atop_icmp = vec![decoded(Ipv4Parser.parse(&ipv4_icmp, None))];
    assert!(matches!(
        parser.parse(ICMP_REQUEST, Some(&atop_icmp)),
        DecodeOutcome::Decoded(Layer::Icmp(_), _, _)
    ));
    let atop_tcp = vec![decoded(Ipv4Parser.parse(IPV4_TCP, None))];
    assert_eq!(
        parser.parse(ICMP_REQUEST, Some(&atop_tcp)),
        DecodeOutcome::Invalid(InvalidKind::ParentMismatch, 0)
    );
}

#[test]
fn tcp_parent_validation_atop_ipv6() {
    let parser = TcpParser;
    let mut tracker = NoTracker;
    let atop_ipv6 = vec![decoded(Ipv6Parser.parse(IPV6_TCP, None))];
    assert!(matches!(
        parser.parse(TCP_SEGMENT, Some(&atop_ipv6), &mut tracker),
        DecodeOutcome::Decoded(Layer::Tcp(_), 32, _)
    ));
    let mut ipv6_udp = Vec::from(IPV6_TCP);
    ipv6_udp[6] = 17;
    let atop_udp_ipv6 = vec![decoded(Ipv6Parser.parse(&ipv6_udp, None))];
    assert_eq!(
        parser.parse(TCP_SEGMENT, Some(&atop_udp_ipv6), &mut tracker),
        DecodeOutcome::Invalid(InvalidKind::ParentMismatch, 0)
    );
}

#[test]
fn ntp_parent_validation() {
    let parser = NtpParser;
    let mut tracker = NoTracker;
    let atop_udp = vec![decoded(UdpParser.parse(UDP_DATAGRAM, None, &mut tracker))];
    assert!(matches!(
        parser.parse(NTP_FIXED, Some(&atop_udp)),
        DecodeOutcome::Decoded(Layer::Ntp(_), 48, _)
    ));
    let atop_tcp = vec![decoded(TcpParser.parse(TCP_SEGMENT, None, &mut tracker))];
    assert_eq!(
        parser.parse(NTP_FIXED, Some(&atop_tcp)),
        DecodeOutcome::Invalid(InvalidKind::ParentMismatch, 0)
    );
}
