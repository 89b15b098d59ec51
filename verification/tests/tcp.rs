use peel_ip::layer::DecodeOutcome;
use peel_ip::layer::InvalidKind;
use peel_ip::layer::Layer;
use peel_ip::layer::Needed;
use peel_ip::layer3::tcp::TcpHeader;
use peel_ip::layer3::tcp::TcpPacket;
use peel_ip::layer3::tcp::TcpParser;
use peel_ip::track::NoTracker;

static TCP_HEADER: &'static [u8] = &[
    0xca, 0x45, 0x01, 0xbb, 0x98, 0x66, 0x5f, 0x0a, 0x44, 0x9d, 0x7f, 0x05, 0x80, 0x18, 0x20,
    0x00, 0x0f, 0x1c, 0x00, 0x00, 0x01, 0x01, 0x08, 0x0a, 0x00, 0x02, 0x2c, 0x2e, 0x63, 0x93,
    0xf1, 0x5b,
];

#[test]
fn tcp_parser_variant() {
    let parser = TcpParser;
    println!("{:?}", parser.variant());
}

#[test]
fn parse_tcp_success() {
    let parser = TcpParser;
    let mut tracker = NoTracker;
    let packet = match parser.parse(TCP_HEADER, None, &mut tracker) {
        DecodeOutcome::Decoded(Layer::Tcp(packet), 32, _) => packet,
        other => panic!("expected a decoded TCP packet, got {:?}", other),
    };
    assert_eq!(
        TcpPacket {
            header: TcpHeader {
                source_port: 51781,
                dest_port: 443,
                sequence_no: 2556845834,
                ack_no: 1151172357,
                data_offset: 32,
                reserved: 0,
                flag_urg: false,
                flag_ack: true,
                flag_psh: true,
                flag_rst: false,
                flag_syn: false,
                flag_fin: false,
                window: 8192,
                checksum: 3868,
                urgent_pointer: 0,
                options: TCP_HEADER[20..].to_vec(),
            },
            path_error: None,
        },
        packet
    );
}

#[test]
fn parse_tcp_failure_too_small() {
    let parser = TcpParser;
    let mut tracker = NoTracker;
    let mut input = Vec::from(TCP_HEADER);
    input.pop();
    assert_eq!(
        parser.parse(&input, None, &mut tracker),
        DecodeOutcome::NeedMoreData(Needed::Size(32))
    );
}

#[test]
fn parse_tcp_failure_wrong_result() {
    let parser = TcpParser;
    let mut tracker = NoTracker;
    assert_eq!(
        parser.parse(TCP_HEADER, Some(&vec![]), &mut tracker),
        DecodeOutcome::Invalid(InvalidKind::ParentMismatch, 0)
    );
}

#[test]
fn parse_tcp_options_underflow_is_invalid() {
    let parser = TcpParser;
    let mut tracker = NoTracker;
    let mut input = Vec::from(TCP_HEADER);
    // A data offset of 4 words announces 16 octets, fewer than the
    // fixed header itself.
    input[12] = 0x40;
    assert_eq!(
        parser.parse(&input, None, &mut tracker),
        DecodeOutcome::Invalid(InvalidKind::LengthUnderflow, 12)
    );
}
