use peel_ip::layer1::arp::ArpHardwareType;
use peel_ip::layer1::arp::ArpOperation;
use peel_ip::layer1::ethernet::EtherType;
use peel_ip::layer2::icmp::IcmpType;
use peel_ip::layer2::icmpv6::Icmpv6Type;
use peel_ip::layer2::ipv4::IpProtocol;
use peel_ip::layer3::tls::TlsRecordContentType;
use peel_ip::layer4::http::HttpHeader;

#[test]
fn ether_type_codes() {
    assert_eq!(EtherType::from_u16(0x0800), Some(EtherType::Ipv4));
    assert_eq!(EtherType::from_u16(0x0806), Some(EtherType::Arp));
    assert_eq!(EtherType::from_u16(0x86DD), Some(EtherType::Ipv6));
    assert_eq!(EtherType::from_u16(0x0000), None);
    assert_eq!(EtherType::from_u16(0x0855), None);
    assert_eq!(EtherType::from_u16(0xFFFF), None);
}

#[test]
fn arp_hardware_type_codes() {
    assert_eq!(ArpHardwareType::from_u16(1), Some(ArpHardwareType::Ethernet));
    assert_eq!(ArpHardwareType::from_u16(0), None);
    assert_eq!(ArpHardwareType::from_u16(2), None);
}

#[test]
fn arp_operation_codes() {
    assert_eq!(ArpOperation::from_u16(1), Some(ArpOperation::Request));
    assert_eq!(ArpOperation::from_u16(2), Some(ArpOperation::Reply));
    assert_eq!(ArpOperation::from_u16(3), Some(ArpOperation::ReverseRequest));
    assert_eq!(ArpOperation::from_u16(4), Some(ArpOperation::ReverseReply));
    assert_eq!(ArpOperation::from_u16(0), None);
    assert_eq!(ArpOperation::from_u16(5), None);
}

#[test]
fn ip_protocol_codes() {
    assert_eq!(IpProtocol::from_u8(1), Some(IpProtocol::Icmp));
    assert_eq!(IpProtocol::from_u8(4), Some(IpProtocol::IpIp));
    assert_eq!(IpProtocol::from_u8(6), Some(IpProtocol::Tcp));
    assert_eq!(IpProtocol::from_u8(17), Some(IpProtocol::Udp));
    assert_eq!(IpProtocol::from_u8(41), Some(IpProtocol::Ipv6));
    assert_eq!(IpProtocol::from_u8(58), Some(IpProtocol::Icmpv6));
    assert_eq!(IpProtocol::from_u8(0), None);
    assert_eq!(IpProtocol::from_u8(2), None);
    assert_eq!(IpProtocol::from_u8(255), None);
}

#[test]
fn icmp_type_codes() {
    assert_eq!(IcmpType::from_u8(0), Some(IcmpType::EchoReply));
    assert_eq!(IcmpType::from_u8(8), Some(IcmpType::EchoRequest));
    assert_eq!(IcmpType::from_u8(1), None);
    assert_eq!(IcmpType::from_u8(128), None);
}

#[test]
fn icmpv6_type_codes() {
    assert_eq!(Icmpv6Type::from_u8(128), Some(Icmpv6Type::EchoRequest));
    assert_eq!(Icmpv6Type::from_u8(129), Some(Icmpv6Type::EchoReply));
    assert_eq!(Icmpv6Type::from_u8(0), None);
    assert_eq!(Icmpv6Type::from_u8(8), None);
}

#[test]
fn tls_record_content_type_codes() {
    assert_eq!(
        TlsRecordContentType::from_u8(20),
        Some(TlsRecordContentType::ChangeCipherSpec)
    );
    assert_eq!(TlsRecordContentType::from_u8(21), Some(TlsRecordContentType::Alert));
    assert_eq!(TlsRecordContentType::from_u8(22), Some(TlsRecordContentType::Handshake));
    assert_eq!(
        TlsRecordContentType::from_u8(23),
        Some(TlsRecordContentType::ApplicationData)
    );
    assert_eq!(TlsRecordContentType::from_u8(24), Some(TlsRecordContentType::Heartbeat));
    assert_eq!(TlsRecordContentType::from_u8(19), None);
    assert_eq!(TlsRecordContentType::from_u8(25), None);
}

#[test]
fn http_header_from_tuple() {
    let header = HttpHeader::from_tuple((b"Host".to_vec(), b"abc.com".to_vec()));
    assert_eq!(header.key, b"Host".to_vec());
    assert_eq!(header.value, b"abc.com".to_vec());
}
