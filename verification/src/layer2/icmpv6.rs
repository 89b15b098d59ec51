//! Internet Control Message Protocol version 6 related packet processing.

use vstd::prelude::*;

use crate::bytes::be16_at;
use crate::bytes::read_be16;
use crate::layer::DecodeOutcome;
use crate::layer::DecodeOutcomeView;
use crate::layer::InvalidKind;
use crate::layer::Layer;
use crate::layer::LayerView;
use crate::layer::Needed;
use crate::layer::ParserState;
use crate::layer::ParserVariant;
use crate::layer::prior_view;
use crate::layer2::icmp::spec_icmp_echo;
use crate::layer2::icmp::IcmpEcho;
use crate::layer2::icmp::IcmpEchoView;
use crate::layer2::icmp::ICMP_ECHO_LENGTH;
use crate::layer2::icmp::ICMP_HEADER_LENGTH;
use crate::layer2::ipv4::IpProtocol;
use vstd::slice::slice_subrange;
use vstd::slice::slice_to_vec;

verus! {

/// The ICMPv6 decoding unit.
#[derive(Debug, Clone, Copy)]
pub struct Icmpv6Parser;

/// Available ICMPv6 control messages.
#[derive(Debug, Clone, Copy, PartialEq, Eq, Hash, Structural)]
pub enum Icmpv6Type {
    /// Echo reply used to ping
    EchoReply,
    /// Echo request used to ping
    EchoRequest,
}

/// Representation of a certain ICMPv6 message.
#[derive(Debug, PartialEq, Eq)]
pub enum Icmpv6Data {
    /// ICMPv6 ping request and reply
    Echo(IcmpEcho),
}

/// Representation of an Internet Control Message Protocol version 6
/// packet.
#[derive(Debug, PartialEq, Eq)]
pub struct Icmpv6Packet {
    /// The ICMPv6 type
    pub message_type: Icmpv6Type,
    /// The message subtype
    pub code: u8,
    /// Error checking data, calculated from the ICMPv6 header and data,
    /// with value 0 substituted for this field.
    pub checksum: u16,
    /// Contents vary based on the type and code.
    pub data: Option<Icmpv6Data>,
}

/// The mathematical value of an `Icmpv6Data`.
pub enum Icmpv6DataView {
    /// Echo request or reply body
    Echo(IcmpEchoView),
}

/// The mathematical value of an `Icmpv6Packet`.
pub struct Icmpv6PacketView {
    /// Message type field
    pub message_type: Icmpv6Type,
    /// Message subtype field
    pub code: u8,
    /// Checksum field
    pub checksum: u16,
    /// Optional echo body
    pub data: Option<Icmpv6DataView>,
}

impl View for Icmpv6Data {
    type V = Icmpv6DataView;

    open spec fn view(&self) -> Icmpv6DataView {
        match self {
            Icmpv6Data::Echo(e) => Icmpv6DataView::Echo(e@),
        }
    }
}

impl View for Icmpv6Packet {
    type V = Icmpv6PacketView;

    open spec fn view(&self) -> Icmpv6PacketView {
        Icmpv6PacketView {
            message_type: self.message_type,
            code: self.code,
            checksum: self.checksum,
            data: match self.data {
                Some(d) => Some(d@),
                None => None,
            },
        }
    }
}

impl Icmpv6Type {
    /// The message type, if any, that an 8-bit wire value enumerates.
    pub open spec fn spec_from_u8(input: u8) -> Option<Icmpv6Type> {
        if input == 128 {
            Some(Icmpv6Type::EchoRequest)
        } else if input == 129 {
            Some(Icmpv6Type::EchoReply)
        } else {
            None
        }
    }

    /// Convert a u8 to an `Icmpv6Type`. Returns None if the value is not
    /// an enumerated type.
    pub fn from_u8(input: u8) -> (r: Option<Icmpv6Type>)
        ensures
            r == Self::spec_from_u8(input),
    {
        match input {
            128 => Some(Icmpv6Type::EchoRequest),
            129 => Some(Icmpv6Type::EchoReply),
            _ => None,
        }
    }
}

/// Whether the layer stack decoded so far permits an ICMPv6 packet
/// next: no stack (standalone mode), or an IPv6 header declaring
/// ICMPv6 as its next header.
pub open spec fn spec_icmpv6_parent_ok(prior: Option<Seq<LayerView>>) -> bool {
    match prior {
        None => true,
        Some(stack) => stack.len() > 0 && match stack[stack.len() - 1] {
            LayerView::Ipv6(p) => p.next_header == IpProtocol::Icmpv6,
            _ => false,
        },
    }
}

/// The decode outcome that an ICMPv6 decoding unit owes for `s` atop
/// the given stack.
///
/// The shape is identical to ICMP, with the version 6 type codes: the
/// message type is enumerated and judged as soon as its octet is
/// available, and a code of zero announces an echo body that consumes
/// the rest of the input.
pub open spec fn spec_parse_icmpv6(s: Seq<u8>, prior: Option<Seq<LayerView>>) -> DecodeOutcomeView {
    if !spec_icmpv6_parent_ok(prior) {
        DecodeOutcomeView::Invalid(InvalidKind::ParentMismatch, 0)
    } else if s.len() >= 1 && Icmpv6Type::spec_from_u8(s[0]) is None {
        DecodeOutcomeView::Invalid(InvalidKind::UnknownCode, 0)
    } else if s.len() < 4 {
        DecodeOutcomeView::NeedMoreData(Needed::Size(4))
    } else if s[1] == 0 {
        if s.len() < 8 {
            DecodeOutcomeView::NeedMoreData(Needed::Size(8))
        } else {
            DecodeOutcomeView::Decoded(
                LayerView::Icmpv6(
                    Icmpv6PacketView {
                        message_type: Icmpv6Type::spec_from_u8(s[0])->Some_0,
                        code: s[1],
                        checksum: be16_at(s, 2),
                        data: Some(Icmpv6DataView::Echo(spec_icmp_echo(s))),
                    },
                ),
                s.len() as usize,
                ParserState::Stop,
            )
        }
    } else {
        DecodeOutcomeView::Decoded(
            LayerView::Icmpv6(
                Icmpv6PacketView {
                    message_type: Icmpv6Type::spec_from_u8(s[0])->Some_0,
                    code: s[1],
                    checksum: be16_at(s, 2),
                    data: None,
                },
            ),
            4,
            ParserState::Stop,
        )
    }
}

/// Truncating a decodable packet below the common header length asks
/// for more data, never reports it invalid.
pub proof fn lemma_icmpv6_truncation(s: Seq<u8>, prior: Option<Seq<LayerView>>)
    requires
        spec_parse_icmpv6(s, prior) is Decoded,
    ensures
        spec_parse_icmpv6(s.take(ICMP_HEADER_LENGTH - 1), prior)
            == DecodeOutcomeView::NeedMoreData(Needed::Size(ICMP_HEADER_LENGTH)),
{
}

/// Every message type value outside the enumerated set is refused at
/// the byte offset of the type field.
pub proof fn lemma_icmpv6_unknown_type(s: Seq<u8>, prior: Option<Seq<LayerView>>)
    requires
        spec_icmpv6_parent_ok(prior),
        s.len() >= 1,
        Icmpv6Type::spec_from_u8(s[0]) is None,
    ensures
        spec_parse_icmpv6(s, prior) == DecodeOutcomeView::Invalid(InvalidKind::UnknownCode, 0),
{
}

/// Parent validation is necessary and order-independent: without a
/// stack the check is skipped and the content is judged on its own;
/// with a stack, an ineligible last element is refused whatever the
/// payload, and an eligible one makes the outcome that of standalone
/// decoding, whatever stands deeper in the stack.
pub proof fn lemma_icmpv6_parent_validation(s: Seq<u8>, stack: Seq<LayerView>)
    ensures
        !spec_icmpv6_parent_ok(Some(stack)) ==> spec_parse_icmpv6(s, Some(stack))
            == DecodeOutcomeView::Invalid(InvalidKind::ParentMismatch, 0),
        spec_icmpv6_parent_ok(Some(stack)) ==> spec_parse_icmpv6(s, Some(stack))
            == spec_parse_icmpv6(s, None),
{
}

impl Icmpv6Parser {
    /// Decodes an `Icmpv6Packet` from the start of `input`, after
    /// checking that the stack decoded so far ends in an IPv6 header
    /// declaring ICMPv6.  A `prior` of `None` skips the parent check;
    /// this is the sanctioned mode for decoding a packet in isolation.
    pub fn parse(&self, input: &[u8], prior: Option<&Vec<Layer>>) -> (r: DecodeOutcome)
        ensures
            r@ == spec_parse_icmpv6(input@, prior_view(prior)),
    {
        let parent_ok: bool = match prior {
            None => true,
            Some(stack) => {
                if stack.len() == 0 {
                    false
                } else {
                    match &stack[stack.len() - 1] {
                        Layer::Ipv6(p) => p.next_header == IpProtocol::Icmpv6,
                        _ => false,
                    }
                }
            },
        };
        if !parent_ok {
            return DecodeOutcome::Invalid(InvalidKind::ParentMismatch, 0);
        }
        let n = input.len();
        if n >= 1 && Icmpv6Type::from_u8(input[0]).is_none() {
            return DecodeOutcome::Invalid(InvalidKind::UnknownCode, 0);
        }
        if n < ICMP_HEADER_LENGTH {
            return DecodeOutcome::NeedMoreData(Needed::Size(ICMP_HEADER_LENGTH));
        }
        let message_type = Icmpv6Type::from_u8(input[0]).unwrap();
        let code = input[1];
        let checksum = read_be16(input, 2);
        if code == 0 {
            if n < ICMP_ECHO_LENGTH {
                return DecodeOutcome::NeedMoreData(Needed::Size(ICMP_ECHO_LENGTH));
            }
            let echo = IcmpEcho {
                identifier: read_be16(input, 4),
                sequence_number: read_be16(input, 6),
                payload: Some(slice_to_vec(slice_subrange(input, 8, n))),
            };
            let packet = Icmpv6Packet {
                message_type,
                code,
                checksum,
                data: Some(Icmpv6Data::Echo(echo)),
            };
            DecodeOutcome::Decoded(Layer::Icmpv6(packet), n, ParserState::Stop)
        } else {
            let packet = Icmpv6Packet { message_type, code, checksum, data: None };
            DecodeOutcome::Decoded(Layer::Icmpv6(packet), ICMP_HEADER_LENGTH, ParserState::Stop)
        }
    }

    /// The variant tag under which the dispatch engine registers this
    /// decoding unit.
    pub fn variant(&self) -> (r: ParserVariant)
        ensures
            r == ParserVariant::Icmpv6(Icmpv6Parser),
    {
        ParserVariant::Icmpv6(Icmpv6Parser)
    }
}

} // verus!
