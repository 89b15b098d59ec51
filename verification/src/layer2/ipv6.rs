//! Internet Protocol version 6 related packet processing.

use vstd::prelude::*;

use crate::addr::ipv6_at;
use crate::addr::Ipv6Address;
use crate::bytes::be16_at;
use crate::bytes::read_be16;
use crate::layer::DecodeOutcome;
use crate::layer::DecodeOutcomeView;
use crate::layer::InvalidKind;
use crate::layer::Layer;
use crate::layer::LayerView;
use crate::layer::Needed;
use crate::layer::ParserState;
use crate::layer::ParserVariant;
use crate::layer::prior_view;
use crate::layer1::ethernet::EtherType;
use crate::layer2::ipv4::IpProtocol;

verus! {

/// Length in octets of the fixed IPv6 header.
pub const IPV6_HEADER_LENGTH: usize = 40;

/// The IPv6 decoding unit.
#[derive(Debug, Clone, Copy)]
pub struct Ipv6Parser;

/// Representation of an Internet Protocol version 6 packet header.
#[derive(Debug, Clone, Copy, PartialEq, Eq, Structural)]
pub struct Ipv6Packet {
    /// Protocol version, always 6
    pub version: u8,
    /// Differentiated services and explicit congestion notification bits
    pub traffic_class: u8,
    /// Hint that packets of one flow should stay on one path
    pub flow_label: u32,
    /// The size of the payload in octets, including any extension headers
    pub payload_length: u16,
    /// The type of the next header, sharing its numbering with the IPv4
    /// protocol field
    pub next_header: IpProtocol,
    /// Decremented by one at each intermediate node; the packet is
    /// discarded when the counter reaches 0
    pub hop_limit: u8,
    /// Source address
    pub src: Ipv6Address,
    /// Destination address
    pub dst: Ipv6Address,
}

/// Whether the layer stack decoded so far permits an IPv6 header next:
/// no stack (standalone mode), an Ethernet frame announcing IPv6, an
/// IPv4 header announcing IPv6 encapsulation, or an IPv6 header
/// announcing IPv6-in-IPv6.  The last case allows self-encapsulation at
/// any depth, bounded only by the input length.
pub open spec fn spec_ipv6_parent_ok(prior: Option<Seq<LayerView>>) -> bool {
    match prior {
        None => true,
        Some(stack) => stack.len() > 0 && match stack[stack.len() - 1] {
            LayerView::Ethernet(e) => e.ethertype == EtherType::Ipv6,
            LayerView::Ipv4(p) => p.protocol == IpProtocol::Ipv6,
            LayerView::Ipv6(p) => p.next_header == IpProtocol::Ipv6,
            _ => false,
        },
    }
}

/// The IPv6 header read from the first 40 octets of `s`.
pub open spec fn spec_ipv6_packet(s: Seq<u8>) -> Ipv6Packet
    recommends
        s.len() >= 40,
        IpProtocol::spec_from_u8(s[6]) is Some,
{
    Ipv6Packet {
        version: s[0] / 16,
        traffic_class: ((s[0] % 16) * 16 + s[1] / 16) as u8,
        flow_label: ((s[1] % 16) * 0x10000 + s[2] * 0x100 + s[3]) as u32,
        payload_length: be16_at(s, 4),
        next_header: IpProtocol::spec_from_u8(s[6])->Some_0,
        hop_limit: s[7],
        src: ipv6_at(s, 8),
        dst: ipv6_at(s, 24),
    }
}

/// The decode outcome that an IPv6 decoding unit owes for `s` atop the
/// given stack.
///
/// The parent check comes first.  The version nibble is a hard tag
/// check, and the next-header field is enumerated; both are judged in
/// wire order as soon as their octets are available.
pub open spec fn spec_parse_ipv6(s: Seq<u8>, prior: Option<Seq<LayerView>>) -> DecodeOutcomeView {
    if !spec_ipv6_parent_ok(prior) {
        DecodeOutcomeView::Invalid(InvalidKind::ParentMismatch, 0)
    } else if s.len() >= 1 && s[0] / 16 != 6 {
        DecodeOutcomeView::Invalid(InvalidKind::TagMismatch, 0)
    } else if s.len() >= 7 && IpProtocol::spec_from_u8(s[6]) is None {
        DecodeOutcomeView::Invalid(InvalidKind::UnknownCode, 6)
    } else if s.len() < 40 {
        DecodeOutcomeView::NeedMoreData(Needed::Size(40))
    } else {
        DecodeOutcomeView::Decoded(
            LayerView::Ipv6(spec_ipv6_packet(s)),
            40,
            ParserState::ContinueWithFirstChild,
        )
    }
}

/// Truncating a decodable header below the fixed length asks for more
/// data, never reports it invalid.
pub proof fn lemma_ipv6_truncation(s: Seq<u8>, prior: Option<Seq<LayerView>>)
    requires
        spec_parse_ipv6(s, prior) is Decoded,
    ensures
        spec_parse_ipv6(s.take(IPV6_HEADER_LENGTH - 1), prior) == DecodeOutcomeView::NeedMoreData(
            Needed::Size(IPV6_HEADER_LENGTH),
        ),
{
}

/// Every next-header value outside the enumerated set is refused at
/// the byte offset of the next-header field.
pub proof fn lemma_ipv6_unknown_next_header(s: Seq<u8>, prior: Option<Seq<LayerView>>)
    requires
        spec_ipv6_parent_ok(prior),
        s.len() >= 7,
        s[0] / 16 == 6,
        IpProtocol::spec_from_u8(s[6]) is None,
    ensures
        spec_parse_ipv6(s, prior) == DecodeOutcomeView::Invalid(InvalidKind::UnknownCode, 6),
{
}

/// Parent validation is necessary and order-independent: without a
/// stack the check is skipped and the content is judged on its own;
/// with a stack, an ineligible last element is refused whatever the
/// payload, and an eligible one makes the outcome that of standalone
/// decoding, whatever stands deeper in the stack.
pub proof fn lemma_ipv6_parent_validation(s: Seq<u8>, stack: Seq<LayerView>)
    ensures
        !spec_ipv6_parent_ok(Some(stack)) ==> spec_parse_ipv6(s, Some(stack))
            == DecodeOutcomeView::Invalid(InvalidKind::ParentMismatch, 0),
        spec_ipv6_parent_ok(Some(stack)) ==> spec_parse_ipv6(s, Some(stack)) == spec_parse_ipv6(
            s,
            None,
        ),
{
}

/// IPv6-in-IPv6 self-encapsulation is accepted by parent validation at
/// any depth: whatever stack an IPv6-in-IPv6 header tops, decoding
/// another IPv6 header atop it behaves as standalone decoding, so the
/// nesting is bounded only by the input length.
pub proof fn lemma_ipv6_self_encapsulation(s: Seq<u8>, stack: Seq<LayerView>, p: Ipv6Packet)
    requires
        p.next_header == IpProtocol::Ipv6,
    ensures
        spec_parse_ipv6(s, Some(stack.push(LayerView::Ipv6(p)))) == spec_parse_ipv6(s, None),
{
}

impl Ipv6Parser {
    /// Decodes an `Ipv6Packet` from the start of `input`, after
    /// checking that the stack decoded so far ends in an Ethernet frame
    /// carrying IPv6, an IPv4 header carrying IPv6, or an IPv6 header
    /// carrying IPv6.  A `prior` of `None` skips the parent check; this
    /// is the sanctioned mode for decoding a packet in isolation.
    pub fn parse(&self, input: &[u8], prior: Option<&Vec<Layer>>) -> (r: DecodeOutcome)
        ensures
            r@ == spec_parse_ipv6(input@, prior_view(prior)),
    {
        let parent_ok: bool = match prior {
            None => true,
            Some(stack) => {
                if stack.len() == 0 {
                    false
                } else {
                    match &stack[stack.len() - 1] {
                        Layer::Ethernet(e) => e.ethertype == EtherType::Ipv6,
                        Layer::Ipv4(p) => p.protocol == IpProtocol::Ipv6,
                        Layer::Ipv6(p) => p.next_header == IpProtocol::Ipv6,
                        _ => false,
                    }
                }
            },
        };
        if !parent_ok {
            return DecodeOutcome::Invalid(InvalidKind::ParentMismatch, 0);
        }
        let n = input.len();
        if n >= 1 && input[0] / 16 != 6 {
            return DecodeOutcome::Invalid(InvalidKind::TagMismatch, 0);
        }
        if n >= 7 && IpProtocol::from_u8(input[6]).is_none() {
            return DecodeOutcome::Invalid(InvalidKind::UnknownCode, 6);
        }
        if n < IPV6_HEADER_LENGTH {
            return DecodeOutcome::NeedMoreData(Needed::Size(IPV6_HEADER_LENGTH));
        }
        let packet = Ipv6Packet {
            version: input[0] / 16,
            traffic_class: (input[0] % 16) * 16 + input[1] / 16,
            flow_label: ((input[1] % 16) as u32) * 0x10000 + (input[2] as u32) * 0x100 + (
            input[3] as u32),
            payload_length: read_be16(input, 4),
            next_header: IpProtocol::from_u8(input[6]).unwrap(),
            hop_limit: input[7],
            src: Ipv6Address(
                read_be16(input, 8),
                read_be16(input, 10),
                read_be16(input, 12),
                read_be16(input, 14),
                read_be16(input, 16),
                read_be16(input, 18),
                read_be16(input, 20),
                read_be16(input, 22),
            ),
            dst: Ipv6Address(
                read_be16(input, 24),
                read_be16(input, 26),
                read_be16(input, 28),
                read_be16(input, 30),
                read_be16(input, 32),
                read_be16(input, 34),
                read_be16(input, 36),
                read_be16(input, 38),
            ),
        };
        DecodeOutcome::Decoded(
            Layer::Ipv6(packet),
            IPV6_HEADER_LENGTH,
            ParserState::ContinueWithFirstChild,
        )
    }

    /// The variant tag under which the dispatch engine registers this
    /// decoding unit.
    pub fn variant(&self) -> (r: ParserVariant)
        ensures
            r == ParserVariant::Ipv6(Ipv6Parser),
    {
        ParserVariant::Ipv6(Ipv6Parser)
    }
}

} // verus!
