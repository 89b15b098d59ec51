use peel_ip::layer::DecodeOutcome;
use peel_ip::layer::InvalidKind;
use peel_ip::layer::Layer;
use peel_ip::layer::Needed;
use peel_ip::layer3::tcp::TcpParser;
use peel_ip::layer3::tls::TlsPacket;
use peel_ip::layer3::tls::TlsParser;
use peel_ip::layer3::tls::TlsRecordContentType;
use peel_ip::layer3::tls::TlsRecordVersion;
use peel_ip::layer4::http::HttpPacket;
use peel_ip::track::NoTracker;

static TLS_RECORD: &'static [u8] = &[0x16, 0x03, 0x01, 0x00, 0x05];

static TCP_HEADER: &'static [u8] = &[
    0xca, 0x45, 0x01, 0xbb, 0x98, 0x66, 0x5f, 0x0a, 0x44, 0x9d, 0x7f, 0x05, 0x80, 0x18, 0x20,
    0x00, 0x0f, 0x1c, 0x00, 0x00, 0x01, 0x01, 0x08, 0x0a, 0x00, 0x02, 0x2c, 0x2e, 0x63, 0x93,
    0xf1, 0x5b,
];

fn decoded_tcp_layer(bytes: &[u8]) -> Layer {
    let mut tracker = NoTracker;
    match TcpParser.parse(bytes, None, &mut tracker) {
        DecodeOutcome::Decoded(layer, _, _) => layer,
        other => panic!("expected a decoded TCP packet, got {:?}", other),
    }
}

fn decoded_tls_layer(bytes: &[u8]) -> Layer {
    match TlsParser.parse(bytes, None) {
        DecodeOutcome::Decoded(layer, _, _) => layer,
        other => panic!("expected a decoded TLS record, got {:?}", other),
    }
}

#[test]
fn parse_tls_success() {
    let parser = TlsParser;
    let packet = match parser.parse(TLS_RECORD, None) {
        DecodeOutcome::Decoded(Layer::Tls(packet), 5, _) => packet,
        other => panic!("expected a decoded TLS record, got {:?}", other),
    };
    assert_eq!(
        TlsPacket {
            content_type: TlsRecordContentType::Handshake,
            version: TlsRecordVersion { major: 3, minor: 1 },
            length: 5,
        },
        packet
    );
}

#[test]
fn parse_tls_failure_wrong_content_type() {
    let parser = TlsParser;
    let mut input = Vec::from(TLS_RECORD);
    input[0] = 0x99;
    assert_eq!(
        parser.parse(&input, None),
        DecodeOutcome::Invalid(InvalidKind::UnknownCode, 0)
    );
}

#[test]
fn parse_tls_failure_too_small() {
    let parser = TlsParser;
    assert_eq!(
        parser.parse(&TLS_RECORD[..4], None),
        DecodeOutcome::NeedMoreData(Needed::Size(5))
    );
}

#[test]
fn parse_tls_parent_validation() {
    let parser = TlsParser;
    // Atop a TCP header the record is accepted.
    let atop_tcp = vec![decoded_tcp_layer(TCP_HEADER)];
    assert!(matches!(
        parser.parse(TLS_RECORD, Some(&atop_tcp)),
        DecodeOutcome::Decoded(Layer::Tls(_), 5, _)
    ));
    // Atop anything else it is a parent mismatch, whatever the octets.
    let atop_tls = vec![decoded_tls_layer(TLS_RECORD)];
    assert_eq!(
        parser.parse(TLS_RECORD, Some(&atop_tls)),
        DecodeOutcome::Invalid(InvalidKind::ParentMismatch, 0)
    );
}

#[test]
fn parse_http_encrypted_over_tls_port_443() {
    // The test TCP header carries destination port 443, so HTTP is
    // recognized as opaque application data atop the TLS record.
    let stack = vec![decoded_tcp_layer(TCP_HEADER), decoded_tls_layer(TLS_RECORD)];
    assert_eq!(
        HttpPacket::parse_encrypted(b"anything", Some(&stack)),
        DecodeOutcome::Decoded(Layer::Http(HttpPacket::Any), 0, peel_ip::layer::ParserState::Stop)
    );
}

#[test]
fn parse_http_encrypted_needs_port_443() {
    // With neither port equal to 443 the position is refused.
    let mut bytes = Vec::from(TCP_HEADER);
    bytes[2] = 0x00;
    bytes[3] = 0x50;
    let stack = vec![decoded_tcp_layer(&bytes), decoded_tls_layer(TLS_RECORD)];
    assert_eq!(
        HttpPacket::parse_encrypted(b"anything", Some(&stack)),
        DecodeOutcome::Invalid(InvalidKind::ParentMismatch, 0)
    );
}
