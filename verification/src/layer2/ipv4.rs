//! Internet Protocol version 4 related packet processing.

use vstd::prelude::*;

use crate::addr::ipv4_at;
use crate::addr::Ipv4Address;
use crate::bytes::be16_at;
use crate::bytes::read_be16;
use crate::layer::DecodeOutcome;
use crate::layer::DecodeOutcomeView;
use crate::layer::InvalidKind;
use crate::layer::Layer;
use crate::layer::LayerView;
use crate::layer::Needed;
use crate::layer::ParserState;
use crate::layer::ParserVariant;
use crate::layer::prior_view;
use crate::layer1::ethernet::EtherType;

verus! {

/// Length in octets of the fixed IPv4 header.
pub const IPV4_HEADER_LENGTH: usize = 20;

/// The IPv4 decoding unit.
#[derive(Debug, Clone, Copy)]
pub struct Ipv4Parser;

/// Supported IP protocol numbers, shared by the IPv4 protocol field and
/// the IPv6 next-header field.
#[derive(Debug, Clone, Copy, PartialEq, Eq, Hash, Structural)]
pub enum IpProtocol {
    /// Internet Control Message Protocol
    Icmp,
    /// IP encapsulation within IP
    IpIp,
    /// Transmission Control Protocol
    Tcp,
    /// User Datagram Protocol
    Udp,
    /// IPv6 Encapsulation
    Ipv6,
    /// Internet Control Message Protocol version 6
    Icmpv6,
}

/// Representation of an Internet Protocol version 4 packet header.
#[derive(Debug, Clone, Copy, PartialEq, Eq, Structural)]
pub struct Ipv4Packet {
    /// Protocol version, always 4
    pub version: u8,
    /// IP header length in octets
    pub ihl: u8,
    /// Type of Service
    pub tos: u8,
    /// Total packet length including header
    pub length: u16,
    /// Identification for the packet reassembly
    pub id: u16,
    /// IP header flags for fragmentation reassembly
    pub flags: u8,
    /// Current fragmentation offset
    pub fragment_offset: u16,
    /// Time to live of the packet
    pub ttl: u8,
    /// The transport protocol for the IP packet
    pub protocol: IpProtocol,
    /// Header checksum
    pub checksum: u16,
    /// Source address
    pub src: Ipv4Address,
    /// Destination address
    pub dst: Ipv4Address,
}

impl IpProtocol {
    /// The protocol, if any, that an 8-bit wire value enumerates.
    pub open spec fn spec_from_u8(input: u8) -> Option<IpProtocol> {
        if input == 1 {
            Some(IpProtocol::Icmp)
        } else if input == 4 {
            Some(IpProtocol::IpIp)
        } else if input == 6 {
            Some(IpProtocol::Tcp)
        } else if input == 17 {
            Some(IpProtocol::Udp)
        } else if input == 41 {
            Some(IpProtocol::Ipv6)
        } else if input == 58 {
            Some(IpProtocol::Icmpv6)
        } else {
            None
        }
    }

    /// Convert a u8 to an `IpProtocol`. Returns None if the value is not
    /// an enumerated protocol.
    pub fn from_u8(input: u8) -> (r: Option<IpProtocol>)
        ensures
            r == Self::spec_from_u8(input),
    {
        match input {
            1 => Some(IpProtocol::Icmp),
            4 => Some(IpProtocol::IpIp),
            6 => Some(IpProtocol::Tcp),
            17 => Some(IpProtocol::Udp),
            41 => Some(IpProtocol::Ipv6),
            58 => Some(IpProtocol::Icmpv6),
            _ => None,
        }
    }
}

/// Whether the layer stack decoded so far permits an IPv4 header next:
/// no stack (standalone mode), an Ethernet frame announcing IPv4, or an
/// IPv4 header announcing IP-in-IP encapsulation.  The last case allows
/// self-encapsulation at any depth, bounded only by the input length.
pub open spec fn spec_ipv4_parent_ok(prior: Option<Seq<LayerView>>) -> bool {
    match prior {
        None => true,
        Some(stack) => stack.len() > 0 && match stack[stack.len() - 1] {
            LayerView::Ethernet(e) => e.ethertype == EtherType::Ipv4,
            LayerView::Ipv4(p) => p.protocol == IpProtocol::IpIp,
            _ => false,
        },
    }
}

/// The IPv4 header read from the first 20 octets of `s`.
pub open spec fn spec_ipv4_packet(s: Seq<u8>) -> Ipv4Packet
    recommends
        s.len() >= 20,
        IpProtocol::spec_from_u8(s[9]) is Some,
{
    Ipv4Packet {
        version: s[0] / 16,
        ihl: ((s[0] % 16) * 4) as u8,
        tos: s[1],
        length: be16_at(s, 2),
        id: be16_at(s, 4),
        flags: s[6] / 32,
        fragment_offset: ((s[6] % 32) * 256 + s[7]) as u16,
        ttl: s[8],
        protocol: IpProtocol::spec_from_u8(s[9])->Some_0,
        checksum: be16_at(s, 10),
        src: ipv4_at(s, 12),
        dst: ipv4_at(s, 16),
    }
}

/// The decode outcome that an IPv4 decoding unit owes for `s` atop the
/// given stack.
///
/// The parent check comes first.  The version nibble is a hard tag
/// check, and the protocol field is enumerated; both are judged in wire
/// order as soon as their octets are available.
pub open spec fn spec_parse_ipv4(s: Seq<u8>, prior: Option<Seq<LayerView>>) -> DecodeOutcomeView {
    if !spec_ipv4_parent_ok(prior) {
        DecodeOutcomeView::Invalid(InvalidKind::ParentMismatch, 0)
    } else if s.len() >= 1 && s[0] / 16 != 4 {
        DecodeOutcomeView::Invalid(InvalidKind::TagMismatch, 0)
    } else if s.len() >= 10 && IpProtocol::spec_from_u8(s[9]) is None {
        DecodeOutcomeView::Invalid(InvalidKind::UnknownCode, 9)
    } else if s.len() < 20 {
        DecodeOutcomeView::NeedMoreData(Needed::Size(20))
    } else {
        DecodeOutcomeView::Decoded(
            LayerView::Ipv4(spec_ipv4_packet(s)),
            20,
            ParserState::ContinueWithChildren,
        )
    }
}

/// Truncating a decodable header below the fixed length asks for more
/// data, never reports it invalid.
pub proof fn lemma_ipv4_truncation(s: Seq<u8>, prior: Option<Seq<LayerView>>)
    requires
        spec_parse_ipv4(s, prior) is Decoded,
    ensures
        spec_parse_ipv4(s.take(IPV4_HEADER_LENGTH - 1), prior) == DecodeOutcomeView::NeedMoreData(
            Needed::Size(IPV4_HEADER_LENGTH),
        ),
{
}

/// Every protocol value outside the enumerated set is refused at the
/// byte offset of the protocol field.
pub proof fn lemma_ipv4_unknown_protocol(s: Seq<u8>, prior: Option<Seq<LayerView>>)
    requires
        spec_ipv4_parent_ok(prior),
        s.len() >= 10,
        s[0] / 16 == 4,
        IpProtocol::spec_from_u8(s[9]) is None,
    ensures
        spec_parse_ipv4(s, prior) == DecodeOutcomeView::Invalid(InvalidKind::UnknownCode, 9),
{
}

/// Parent validation is necessary and order-independent: without a
/// stack the check is skipped and the content is judged on its own;
/// with a stack, an ineligible last element is refused whatever the
/// payload, and an eligible one makes the outcome that of standalone
/// decoding, whatever stands deeper in the stack.
pub proof fn lemma_ipv4_parent_validation(s: Seq<u8>, stack: Seq<LayerView>)
    ensures
        !spec_ipv4_parent_ok(Some(stack)) ==> spec_parse_ipv4(s, Some(stack))
            == DecodeOutcomeView::Invalid(InvalidKind::ParentMismatch, 0),
        spec_ipv4_parent_ok(Some(stack)) ==> spec_parse_ipv4(s, Some(stack)) == spec_parse_ipv4(
            s,
            None,
        ),
{
}

/// IPv4-in-IPv4 self-encapsulation is accepted by parent validation at
/// any depth: whatever stack an IP-in-IP header tops, decoding another
/// IPv4 header atop it behaves as standalone decoding, so the nesting
/// is bounded only by the input length.
pub proof fn lemma_ipv4_self_encapsulation(s: Seq<u8>, stack: Seq<LayerView>, p: Ipv4Packet)
    requires
        p.protocol == IpProtocol::IpIp,
    ensures
        spec_parse_ipv4(s, Some(stack.push(LayerView::Ipv4(p)))) == spec_parse_ipv4(s, None),
{
}

impl Ipv4Parser {
    /// Decodes an `Ipv4Packet` from the start of `input`, after
    /// checking that the stack decoded so far ends in an Ethernet frame
    /// carrying IPv4 or an IPv4 header carrying IP-in-IP.  A `prior` of
    /// `None` skips the parent check; this is the sanctioned mode for
    /// decoding a packet in isolation.
    pub fn parse(&self, input: &[u8], prior: Option<&Vec<Layer>>) -> (r: DecodeOutcome)
        ensures
            r@ == spec_parse_ipv4(input@, prior_view(prior)),
    {
        let parent_ok: bool = match prior {
            None => true,
            Some(stack) => {
                if stack.len() == 0 {
                    false
                } else {
                    match &stack[stack.len() - 1] {
                        Layer::Ethernet(e) => e.ethertype == EtherType::Ipv4,
                        Layer::Ipv4(p) => p.protocol == IpProtocol::IpIp,
                        _ => false,
                    }
                }
            },
        };
        if !parent_ok {
            return DecodeOutcome::Invalid(InvalidKind::ParentMismatch, 0);
        }
        let n = input.len();
        if n >= 1 && input[0] / 16 != 4 {
            return DecodeOutcome::Invalid(InvalidKind::TagMismatch, 0);
        }
        if n >= 10 && IpProtocol::from_u8(input[9]).is_none() {
            return DecodeOutcome::Invalid(InvalidKind::UnknownCode, 9);
        }
        if n < IPV4_HEADER_LENGTH {
            return DecodeOutcome::NeedMoreData(Needed::Size(IPV4_HEADER_LENGTH));
        }
        let packet = Ipv4Packet {
            version: input[0] / 16,
            ihl: (input[0] % 16) * 4,
            tos: input[1],
            length: read_be16(input, 2),
            id: read_be16(input, 4),
            flags: input[6] / 32,
            fragment_offset: ((input[6] % 32) as u16) * 256 + (input[7] as u16),
            ttl: input[8],
            protocol: IpProtocol::from_u8(input[9]).unwrap(),
            checksum: read_be16(input, 10),
            src: Ipv4Address(input[12], input[13], input[14], input[15]),
            dst: Ipv4Address(input[16], input[17], input[18], input[19]),
        };
        DecodeOutcome::Decoded(
            Layer::Ipv4(packet),
            IPV4_HEADER_LENGTH,
            ParserState::ContinueWithChildren,
        )
    }

    /// The variant tag under which the dispatch engine registers this
    /// decoding unit.
    pub fn variant(&self) -> (r: ParserVariant)
        ensures
            r == ParserVariant::Ipv4(Ipv4Parser),
    {
        ParserVariant::Ipv4(Ipv4Parser)
    }
}

} // verus!
