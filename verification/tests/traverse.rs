use peel_ip::addr::IpAddress;
use peel_ip::layer::DecodeOutcome;
use peel_ip::layer2::ipv4::Ipv4Parser;
use peel_ip::layer3::flow_identifier;
use peel_ip::addr::Ipv4Address;
use peel_ip::layer::Layer;
use peel_ip::layer2::ipv4::IpProtocol;
use peel_ip::track::FlowTracker;
use peel_ip::track::Identifier;
use peel_ip::track::NoTracker;
use peel_ip::track::TrackError;
use peel_ip::PeelIp;
use peel_ip::TraverseError;

/// A tracker that records every identifier it is handed and answers
/// with a fixed verdict.
struct RecordingTracker {
    seen: Vec<Identifier>,
    verdict: Result<(), TrackError>,
}

impl FlowTracker for RecordingTracker {
    type Handle = ();

    fn track(&mut self, identifier: &Identifier) -> Result<(), TrackError> {
        self.seen.push(*identifier);
        self.verdict
    }
}

static ETH_IPV4: &'static [u8] = &[1, 2, 3, 4, 5, 6, 7, 8, 9, 10, 11, 12, 8, 0];

static IPV4_TCP: &'static [u8] = &[
    0x45, 0x00, 0x01, 0xa5, 0xd6, 0x63, 0x40, 0x00, 0x3f, 0x06, 0x9b, 0xfc, 0xc0, 0xa8, 0x01,
    0x0a, 0xad, 0xfc, 0x58, 0x44,
];

static TCP_SEGMENT: &'static [u8] = &[
    0xca, 0x45, 0x01, 0xbb, 0x98, 0x66, 0x5f, 0x0a, 0x44, 0x9d, 0x7f, 0x05, 0x80, 0x18, 0x20,
    0x00, 0x0f, 0x1c, 0x00, 0x00, 0x01, 0x01, 0x08, 0x0a, 0x00, 0x02, 0x2c, 0x2e, 0x63, 0x93,
    0xf1, 0x5b,
];

static UDP_DATAGRAM: &'static [u8] = &[0x00, 0x35, 0xc7, 0xde, 0x00, 0x92, 0xad, 0x1b];

static NTP_FIXED: &'static [u8] = &[
    0x23, 0x00, 0x00, 0x00, 0x00, 0x00, 0x00, 0x0c, 0x00, 0x00, 0x00, 0x00, 0x00, 0x00, 0x00,
    0x00, 0x00, 0x00, 0x00, 0x00, 0x00, 0x00, 0x00, 0x00, 0x00, 0x00, 0x00, 0x00, 0x00, 0x00,
    0x00, 0x00, 0x00, 0x00, 0x00, 0x00, 0x00, 0x00, 0x00, 0x00, 0xcc, 0x25, 0xcc, 0x13, 0x2b,
    0x02, 0x10, 0x00,
];

#[test]
fn traverse_ethernet_only() {
    let peel = PeelIp::new();
    let mut tracker = NoTracker;
    let input = vec![0, 0, 0, 0, 0, 0, 0, 0, 0, 0, 0, 0, 8, 0];
    let result = peel.traverse(&input, vec![], &mut tracker).unwrap();
    assert_eq!(result.len(), 1);
    assert!(matches!(result[0], Layer::Ethernet(_)));
}

#[test]
fn traverse_empty_input_fails() {
    let peel = PeelIp::new();
    let mut tracker = NoTracker;
    assert_eq!(
        peel.traverse(&[], vec![], &mut tracker),
        Err(TraverseError::NoParserSucceeded)
    );
}

#[test]
fn traverse_ethernet_ipv4_tcp() {
    let peel = PeelIp::new();
    let mut input = Vec::from(ETH_IPV4);
    input.extend_from_slice(IPV4_TCP);
    input.extend_from_slice(TCP_SEGMENT);

    let mut tracker = RecordingTracker {
        seen: vec![],
        verdict: Err(TrackError::Rejected),
    };
    let result = peel.traverse(&input, vec![], &mut tracker).unwrap();
    assert_eq!(result.len(), 3);
    assert!(matches!(result[0], Layer::Ethernet(_)));
    assert!(matches!(result[1], Layer::Ipv4(_)));
    let tcp = match &result[2] {
        Layer::Tcp(tcp) => tcp,
        other => panic!("expected a TCP layer, got {:?}", other),
    };
    // The traversal recorded the tracker's verdict in the TCP layer.
    assert_eq!(tcp.path_error, Some(TrackError::Rejected));
    // The tracker saw the 5-tuple of the flow, built from the nearest
    // Internet layer and the transport ports.
    assert_eq!(
        tracker.seen,
        vec![Identifier::new(
            IpAddress::V4(Ipv4Address::new(192, 168, 1, 10)),
            51781,
            IpAddress::V4(Ipv4Address::new(173, 252, 88, 68)),
            443,
            IpProtocol::Tcp,
        )]
    );
}

#[test]
fn traverse_records_tracker_success_silently() {
    let peel = PeelIp::new();
    let mut input = Vec::from(ETH_IPV4);
    input.extend_from_slice(IPV4_TCP);
    input.extend_from_slice(TCP_SEGMENT);

    let mut tracker = RecordingTracker {
        seen: vec![],
        verdict: Ok(()),
    };
    let result = peel.traverse(&input, vec![], &mut tracker).unwrap();
    assert_eq!(result.len(), 3);
    let tcp = match &result[2] {
        Layer::Tcp(tcp) => tcp,
        other => panic!("expected a TCP layer, got {:?}", other),
    };
    assert_eq!(tcp.path_error, None);
    assert_eq!(tracker.seen.len(), 1);
}

#[test]
fn traverse_ipv4_in_ipv4() {
    let peel = PeelIp::new();
    let mut outer_ipv4 = Vec::from(IPV4_TCP);
    outer_ipv4[9] = 4; // IP in IP
    let mut input = Vec::from(ETH_IPV4);
    input.extend_from_slice(&outer_ipv4);
    input.extend_from_slice(IPV4_TCP);
    input.extend_from_slice(TCP_SEGMENT);

    let mut tracker = NoTracker;
    let result = peel.traverse(&input, vec![], &mut tracker).unwrap();
    assert_eq!(result.len(), 4);
    assert!(matches!(result[0], Layer::Ethernet(_)));
    assert!(matches!(result[1], Layer::Ipv4(_)));
    assert!(matches!(result[2], Layer::Ipv4(_)));
    assert!(matches!(result[3], Layer::Tcp(_)));
}

#[test]
fn traverse_udp_ntp() {
    let peel = PeelIp::new();
    let mut ipv4_udp = Vec::from(IPV4_TCP);
    ipv4_udp[9] = 17; // UDP
    let mut input = Vec::from(ETH_IPV4);
    input.extend_from_slice(&ipv4_udp);
    input.extend_from_slice(UDP_DATAGRAM);
    input.extend_from_slice(NTP_FIXED);

    let mut tracker = NoTracker;
    let result = peel.traverse(&input, vec![], &mut tracker).unwrap();
    assert_eq!(result.len(), 4);
    assert!(matches!(result[2], Layer::Udp(_)));
    assert!(matches!(result[3], Layer::Ntp(_)));
}

#[test]
fn flow_identifier_uses_nearest_internet_layer() {
    let ip_layer = match Ipv4Parser.parse(IPV4_TCP, None) {
        DecodeOutcome::Decoded(layer, _, _) => layer,
        other => panic!("expected a decoded IPv4 header, got {:?}", other),
    };
    let stack = vec![ip_layer];
    let identifier = flow_identifier(Some(&stack), 10, 20).unwrap();
    assert_eq!(
        identifier,
        Identifier::new(
            IpAddress::V4(Ipv4Address::new(192, 168, 1, 10)),
            10,
            IpAddress::V4(Ipv4Address::new(173, 252, 88, 68)),
            20,
            IpProtocol::Tcp,
        )
    );
    // Without a stack there is nothing to identify.
    assert_eq!(flow_identifier(None, 10, 20), None);
    // A stack without an Internet layer yields no identifier either.
    let empty: Vec<Layer> = vec![];
    assert_eq!(flow_identifier(Some(&empty), 10, 20), None);
}
