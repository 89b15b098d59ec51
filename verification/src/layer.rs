//! The layer model and the dispatch contract.
//!
//! A decoded packet is a stack of [`Layer`] values, outermost
//! encapsulation first.  Every decoding unit exposes one operation that
//! takes the raw input and the stack decoded so far and reports one of
//! three outcomes: a decoded layer together with the number of octets it
//! consumed and a continuation directive for the engine, a request for
//! more input, or a refusal.

use vstd::prelude::*;

use crate::layer1::arp::ArpPacket;
use crate::layer1::arp::ArpParser;
use crate::layer1::ethernet::EtherType;
use crate::layer2::ipv4::IpProtocol;
use crate::layer1::ethernet::EthernetPacket;
use crate::layer1::ethernet::EthernetParser;
use crate::layer2::icmp::IcmpPacket;
use crate::layer2::icmp::IcmpPacketView;
use crate::layer2::icmp::IcmpParser;
use crate::layer2::icmpv6::Icmpv6Packet;
use crate::layer2::icmpv6::Icmpv6PacketView;
use crate::layer2::icmpv6::Icmpv6Parser;
use crate::layer2::ipv4::Ipv4Packet;
use crate::layer2::ipv4::Ipv4Parser;
use crate::layer2::ipv6::Ipv6Packet;
use crate::layer2::ipv6::Ipv6Parser;
use crate::layer3::tcp::TcpPacket;
use crate::layer3::tcp::TcpPacketView;
use crate::layer3::tcp::TcpParser;
use crate::layer3::tls::TlsPacket;
use crate::layer3::tls::TlsParser;
use crate::layer3::udp::UdpPacket;
use crate::layer3::udp::UdpParser;
use crate::layer4::http::HttpPacket;
use crate::layer4::http::HttpPacketView;
use crate::layer4::http::HttpParser;
use crate::layer4::ntp::NtpPacket;
use crate::layer4::ntp::NtpPacketView;
use crate::layer4::ntp::NtpParser;

verus! {

/// One decoded protocol record in a packet's encapsulation stack.
///
/// The set of variants is closed: every parent check matches on it
/// exhaustively, so each protocol's position rules cover every other
/// protocol by construction.
#[derive(Debug, PartialEq, Eq)]
pub enum Layer {
    /// A decoded Ethernet frame header
    Ethernet(EthernetPacket),
    /// A decoded ARP packet
    Arp(ArpPacket),
    /// A decoded IPv4 header
    Ipv4(Ipv4Packet),
    /// A decoded IPv6 header
    Ipv6(Ipv6Packet),
    /// A decoded ICMP packet
    Icmp(IcmpPacket),
    /// A decoded ICMPv6 packet
    Icmpv6(Icmpv6Packet),
    /// A decoded TCP header
    Tcp(TcpPacket),
    /// A decoded TLS record header
    Tls(TlsPacket),
    /// A decoded HTTP packet
    Http(HttpPacket),
    /// A decoded UDP header
    Udp(UdpPacket),
    /// A decoded NTP packet
    Ntp(NtpPacket),
}

/// The mathematical value of a [`Layer`].
pub enum LayerView {
    /// An Ethernet frame header
    Ethernet(EthernetPacket),
    /// An ARP packet
    Arp(ArpPacket),
    /// An IPv4 header
    Ipv4(Ipv4Packet),
    /// An IPv6 header
    Ipv6(Ipv6Packet),
    /// An ICMP packet
    Icmp(IcmpPacketView),
    /// An ICMPv6 packet
    Icmpv6(Icmpv6PacketView),
    /// A TCP header
    Tcp(TcpPacketView),
    /// A TLS record header
    Tls(TlsPacket),
    /// An HTTP packet
    Http(HttpPacketView),
    /// A UDP header
    Udp(UdpPacket),
    /// An NTP packet
    Ntp(NtpPacketView),
}

impl View for Layer {
    type V = LayerView;

    open spec fn view(&self) -> LayerView {
        match self {
            Layer::Ethernet(p) => LayerView::Ethernet(*p),
            Layer::Arp(p) => LayerView::Arp(*p),
            Layer::Ipv4(p) => LayerView::Ipv4(*p),
            Layer::Ipv6(p) => LayerView::Ipv6(*p),
            Layer::Icmp(p) => LayerView::Icmp(p@),
            Layer::Icmpv6(p) => LayerView::Icmpv6(p@),
            Layer::Tcp(p) => LayerView::Tcp(p@),
            Layer::Tls(p) => LayerView::Tls(*p),
            Layer::Http(p) => LayerView::Http(p@),
            Layer::Udp(p) => LayerView::Udp(*p),
            Layer::Ntp(p) => LayerView::Ntp(p@),
        }
    }
}

/// The continuation directive a decoding unit returns to the engine.
#[derive(Debug, Clone, Copy, PartialEq, Eq, Structural)]
pub enum ParserState {
    /// Keep decoding the remaining octets, trying every linked child in
    /// registration order.
    ContinueWithChildren,
    /// Decode only the first structurally eligible child and stop
    /// branching further; used where the protocol declares exactly one
    /// next protocol.
    ContinueWithFirstChild,
    /// The layer is terminal: end the traversal.
    Stop,
}

/// How many octets a decoding unit still needs before it can judge the
/// input.
#[derive(Debug, Clone, Copy, PartialEq, Eq, Structural)]
pub enum Needed {
    /// The total number of octets, counted from the start of the unit's
    /// input, that the unit needs at least.
    Size(usize),
    /// The need cannot be determined statically.
    Unknown,
}

/// Why a well-formed-length input was refused.
#[derive(Debug, Clone, Copy, PartialEq, Eq, Structural)]
pub enum InvalidKind {
    /// An enumerated field held a value outside the recognized set.
    UnknownCode,
    /// A fixed tag, such as a version nibble or a literal keyword, did
    /// not match.
    TagMismatch,
    /// The layer stack decoded so far does not permit this protocol
    /// here.
    ParentMismatch,
    /// A length field implies a negative amount of trailing data.
    LengthUnderflow,
    /// A textual grammar element could not be read.
    MalformedText,
}

/// The three-way outcome of one decode call.
#[derive(Debug, PartialEq, Eq)]
pub enum DecodeOutcome {
    /// The unit decoded a layer from a prefix of the input: the layer,
    /// the number of octets consumed, and the continuation directive.
    Decoded(Layer, usize, ParserState),
    /// The input is a valid prefix; more octets are needed.
    NeedMoreData(Needed),
    /// The input violates the protocol: the reason and the octet offset
    /// of the offending field.
    Invalid(InvalidKind, usize),
}

/// The mathematical value of a [`DecodeOutcome`].
pub enum DecodeOutcomeView {
    /// A decoded layer, the octets consumed, and the continuation
    Decoded(LayerView, usize, ParserState),
    /// More octets are needed
    NeedMoreData(Needed),
    /// The reason of refusal and the offset of the offending field
    Invalid(InvalidKind, usize),
}

impl View for DecodeOutcome {
    type V = DecodeOutcomeView;

    open spec fn view(&self) -> DecodeOutcomeView {
        match self {
            DecodeOutcome::Decoded(layer, consumed, state) => DecodeOutcomeView::Decoded(
                layer@,
                *consumed,
                *state,
            ),
            DecodeOutcome::NeedMoreData(needed) => DecodeOutcomeView::NeedMoreData(*needed),
            DecodeOutcome::Invalid(kind, offset) => DecodeOutcomeView::Invalid(*kind, *offset),
        }
    }
}

/// The identifying tags of the decoding units.
#[derive(Debug, Clone, Copy)]
pub enum ParserVariant {
    /// The Ethernet decoding unit
    Ethernet(EthernetParser),
    /// The ARP decoding unit
    Arp(ArpParser),
    /// The IPv4 decoding unit
    Ipv4(Ipv4Parser),
    /// The IPv6 decoding unit
    Ipv6(Ipv6Parser),
    /// The ICMP decoding unit
    Icmp(IcmpParser),
    /// The ICMPv6 decoding unit
    Icmpv6(Icmpv6Parser),
    /// The TCP decoding unit
    Tcp(TcpParser),
    /// The UDP decoding unit
    Udp(UdpParser),
    /// The TLS decoding unit
    Tls(TlsParser),
    /// The HTTP decoding unit
    Http(HttpParser),
    /// The NTP decoding unit
    Ntp(NtpParser),
}

/// The layer stack decoded so far, as a mathematical sequence, or `None`
/// in standalone mode.
pub open spec fn prior_view(prior: Option<&Vec<Layer>>) -> Option<Seq<LayerView>> {
    match prior {
        Some(v) => Some(v@.map_values(|l: Layer| l@)),
        None => None,
    }
}

/// Whether `parent` is a structurally valid parent for `child` under
/// the encapsulation rules: the protocol that `child` belongs to must
/// be the one that `parent` declares as its payload.  This is the
/// pairwise invariant of a result stack.  An Ethernet frame follows no
/// other layer: it can only open a stack.
pub open spec fn spec_follows(parent: LayerView, child: LayerView) -> bool {
    match child {
        LayerView::Ethernet(_) => false,
        LayerView::Arp(_) => parent matches LayerView::Ethernet(e) && e.ethertype
            == EtherType::Arp,
        LayerView::Ipv4(_) => (parent matches LayerView::Ethernet(e) && e.ethertype
            == EtherType::Ipv4) || (parent matches LayerView::Ipv4(p) && p.protocol
            == IpProtocol::IpIp),
        LayerView::Ipv6(_) => (parent matches LayerView::Ethernet(e) && e.ethertype
            == EtherType::Ipv6) || (parent matches LayerView::Ipv4(p) && p.protocol
            == IpProtocol::Ipv6) || (parent matches LayerView::Ipv6(p) && p.next_header
            == IpProtocol::Ipv6),
        LayerView::Icmp(_) => parent matches LayerView::Ipv4(p) && p.protocol
            == IpProtocol::Icmp,
        LayerView::Icmpv6(_) => parent matches LayerView::Ipv6(p) && p.next_header
            == IpProtocol::Icmpv6,
        LayerView::Tcp(_) => (parent matches LayerView::Ipv4(p) && p.protocol == IpProtocol::Tcp)
            || (parent matches LayerView::Ipv6(p) && p.next_header == IpProtocol::Tcp),
        LayerView::Udp(_) => (parent matches LayerView::Ipv4(p) && p.protocol == IpProtocol::Udp)
            || (parent matches LayerView::Ipv6(p) && p.next_header == IpProtocol::Udp),
        LayerView::Tls(_) => parent matches LayerView::Tcp(_),
        LayerView::Http(_) => (parent matches LayerView::Tcp(_)) || (parent
            matches LayerView::Tls(_)),
        LayerView::Ntp(_) => parent matches LayerView::Udp(_),
    }
}

} // verus!
