//! Internet Control Message Protocol related packet processing.

use vstd::prelude::*;

use crate::bytes::be16_at;
use crate::bytes::read_be16;
use crate::layer::DecodeOutcome;
use crate::layer::DecodeOutcomeView;
use crate::layer::InvalidKind;
use crate::layer::Layer;
use crate::layer::LayerView;
use crate::layer::Needed;
use crate::layer::ParserState;
use crate::layer::ParserVariant;
use crate::layer::prior_view;
use crate::layer2::ipv4::IpProtocol;
use vstd::slice::slice_subrange;
use vstd::slice::slice_to_vec;

verus! {

/// Length in octets of the common ICMP header.
pub const ICMP_HEADER_LENGTH: usize = 4;

/// Length in octets of an ICMP header followed by the fixed part of an
/// echo body.
pub const ICMP_ECHO_LENGTH: usize = 8;

/// The ICMP decoding unit.
#[derive(Debug, Clone, Copy)]
pub struct IcmpParser;

/// Available ICMP control messages.
#[derive(Debug, Clone, Copy, PartialEq, Eq, Hash, Structural)]
pub enum IcmpType {
    /// Echo reply used to ping
    EchoReply,
    /// Echo request used to ping
    EchoRequest,
}

/// ICMP echo request and replies.
#[derive(Debug, PartialEq, Eq)]
pub struct IcmpEcho {
    /// Identifier
    pub identifier: u16,
    /// Sequence Number
    pub sequence_number: u16,
    /// Optional payload
    pub payload: Option<Vec<u8>>,
}

/// Representation of a certain ICMP message.
#[derive(Debug, PartialEq, Eq)]
pub enum IcmpData {
    /// ICMP ping request and reply
    Echo(IcmpEcho),
}

/// Representation of an Internet Control Message Protocol packet.
#[derive(Debug, PartialEq, Eq)]
pub struct IcmpPacket {
    /// The ICMP type
    pub message_type: IcmpType,
    /// The message subtype
    pub code: u8,
    /// Error checking data, calculated from the ICMP header and data,
    /// with value 0 substituted for this field.
    pub checksum: u16,
    /// Contents vary based on the type and code.
    pub data: Option<IcmpData>,
}

/// The mathematical value of an `IcmpEcho`.
pub struct IcmpEchoView {
    /// Identifier field
    pub identifier: u16,
    /// Sequence number field
    pub sequence_number: u16,
    /// Optional payload octets
    pub payload: Option<Seq<u8>>,
}

/// The mathematical value of an `IcmpData`.
pub enum IcmpDataView {
    /// Echo request or reply body
    Echo(IcmpEchoView),
}

/// The mathematical value of an `IcmpPacket`.
pub struct IcmpPacketView {
    /// Message type field
    pub message_type: IcmpType,
    /// Message subtype field
    pub code: u8,
    /// Checksum field
    pub checksum: u16,
    /// Optional echo body
    pub data: Option<IcmpDataView>,
}

impl View for IcmpEcho {
    type V = IcmpEchoView;

    open spec fn view(&self) -> IcmpEchoView {
        IcmpEchoView {
            identifier: self.identifier,
            sequence_number: self.sequence_number,
            payload: match self.payload {
                Some(p) => Some(p@),
                None => None,
            },
        }
    }
}

impl View for IcmpData {
    type V = IcmpDataView;

    open spec fn view(&self) -> IcmpDataView {
        match self {
            IcmpData::Echo(e) => IcmpDataView::Echo(e@),
        }
    }
}

impl View for IcmpPacket {
    type V = IcmpPacketView;

    open spec fn view(&self) -> IcmpPacketView {
        IcmpPacketView {
            message_type: self.message_type,
            code: self.code,
            checksum: self.checksum,
            data: match self.data {
                Some(d) => Some(d@),
                None => None,
            },
        }
    }
}

impl IcmpType {
    /// The message type, if any, that an 8-bit wire value enumerates.
    pub open spec fn spec_from_u8(input: u8) -> Option<IcmpType> {
        if input == 0 {
            Some(IcmpType::EchoReply)
        } else if input == 8 {
            Some(IcmpType::EchoRequest)
        } else {
            None
        }
    }

    /// Convert a u8 to an `IcmpType`. Returns None if the value is not an
    /// enumerated type.
    pub fn from_u8(input: u8) -> (r: Option<IcmpType>)
        ensures
            r == Self::spec_from_u8(input),
    {
        match input {
            0 => Some(IcmpType::EchoReply),
            8 => Some(IcmpType::EchoRequest),
            _ => None,
        }
    }
}

/// Whether the layer stack decoded so far permits an ICMP packet next:
/// no stack (standalone mode), or an IPv4 header declaring ICMP.
pub open spec fn spec_icmp_parent_ok(prior: Option<Seq<LayerView>>) -> bool {
    match prior {
        None => true,
        Some(stack) => stack.len() > 0 && match stack[stack.len() - 1] {
            LayerView::Ipv4(p) => p.protocol == IpProtocol::Icmp,
            _ => false,
        },
    }
}

/// The echo body read from octet 4 of `s` up to its end.
pub open spec fn spec_icmp_echo(s: Seq<u8>) -> IcmpEchoView
    recommends
        s.len() >= 8,
{
    IcmpEchoView {
        identifier: be16_at(s, 4),
        sequence_number: be16_at(s, 6),
        payload: Some(s.subrange(8, s.len() as int)),
    }
}

/// The decode outcome that an ICMP decoding unit owes for `s` atop the
/// given stack.
///
/// The message type is enumerated and judged as soon as its octet is
/// available.  Since every enumerated type is an echo message, a code
/// of zero announces an echo body, which consumes the rest of the
/// input; any other code ends the packet after the common header.
pub open spec fn spec_parse_icmp(s: Seq<u8>, prior: Option<Seq<LayerView>>) -> DecodeOutcomeView {
    if !spec_icmp_parent_ok(prior) {
        DecodeOutcomeView::Invalid(InvalidKind::ParentMismatch, 0)
    } else if s.len() >= 1 && IcmpType::spec_from_u8(s[0]) is None {
        DecodeOutcomeView::Invalid(InvalidKind::UnknownCode, 0)
    } else if s.len() < 4 {
        DecodeOutcomeView::NeedMoreData(Needed::Size(4))
    } else if s[1] == 0 {
        if s.len() < 8 {
            DecodeOutcomeView::NeedMoreData(Needed::Size(8))
        } else {
            DecodeOutcomeView::Decoded(
                LayerView::Icmp(
                    IcmpPacketView {
                        message_type: IcmpType::spec_from_u8(s[0])->Some_0,
                        code: s[1],
                        checksum: be16_at(s, 2),
                        data: Some(IcmpDataView::Echo(spec_icmp_echo(s))),
                    },
                ),
                s.len() as usize,
                ParserState::Stop,
            )
        }
    } else {
        DecodeOutcomeView::Decoded(
            LayerView::Icmp(
                IcmpPacketView {
                    message_type: IcmpType::spec_from_u8(s[0])->Some_0,
                    code: s[1],
                    checksum: be16_at(s, 2),
                    data: None,
                },
            ),
            4,
            ParserState::Stop,
        )
    }
}

/// Truncating a decodable packet below the common header length asks
/// for more data, never reports it invalid.
pub proof fn lemma_icmp_truncation(s: Seq<u8>, prior: Option<Seq<LayerView>>)
    requires
        spec_parse_icmp(s, prior) is Decoded,
    ensures
        spec_parse_icmp(s.take(ICMP_HEADER_LENGTH - 1), prior) == DecodeOutcomeView::NeedMoreData(
            Needed::Size(ICMP_HEADER_LENGTH),
        ),
{
}

/// Every message type value outside the enumerated set is refused at
/// the byte offset of the type field.
pub proof fn lemma_icmp_unknown_type(s: Seq<u8>, prior: Option<Seq<LayerView>>)
    requires
        spec_icmp_parent_ok(prior),
        s.len() >= 1,
        IcmpType::spec_from_u8(s[0]) is None,
    ensures
        spec_parse_icmp(s, prior) == DecodeOutcomeView::Invalid(InvalidKind::UnknownCode, 0),
{
}

/// Parent validation is necessary and order-independent: without a
/// stack the check is skipped and the content is judged on its own;
/// with a stack, an ineligible last element is refused whatever the
/// payload, and an eligible one makes the outcome that of standalone
/// decoding, whatever stands deeper in the stack.
pub proof fn lemma_icmp_parent_validation(s: Seq<u8>, stack: Seq<LayerView>)
    ensures
        !spec_icmp_parent_ok(Some(stack)) ==> spec_parse_icmp(s, Some(stack))
            == DecodeOutcomeView::Invalid(InvalidKind::ParentMismatch, 0),
        spec_icmp_parent_ok(Some(stack)) ==> spec_parse_icmp(s, Some(stack)) == spec_parse_icmp(
            s,
            None,
        ),
{
}

impl IcmpParser {
    /// Decodes an `IcmpPacket` from the start of `input`, after
    /// checking that the stack decoded so far ends in an IPv4 header
    /// declaring ICMP.  A `prior` of `None` skips the parent check;
    /// this is the sanctioned mode for decoding a packet in isolation.
    pub fn parse(&self, input: &[u8], prior: Option<&Vec<Layer>>) -> (r: DecodeOutcome)
        ensures
            r@ == spec_parse_icmp(input@, prior_view(prior)),
    {
        let parent_ok: bool = match prior {
            None => true,
            Some(stack) => {
                if stack.len() == 0 {
                    false
                } else {
                    match &stack[stack.len() - 1] {
                        Layer::Ipv4(p) => p.protocol == IpProtocol::Icmp,
                        _ => false,
                    }
                }
            },
        };
        if !parent_ok {
            return DecodeOutcome::Invalid(InvalidKind::ParentMismatch, 0);
        }
        let n = input.len();
        if n >= 1 && IcmpType::from_u8(input[0]).is_none() {
            return DecodeOutcome::Invalid(InvalidKind::UnknownCode, 0);
        }
        if n < ICMP_HEADER_LENGTH {
            return DecodeOutcome::NeedMoreData(Needed::Size(ICMP_HEADER_LENGTH));
        }
        let message_type = IcmpType::from_u8(input[0]).unwrap();
        let code = input[1];
        let checksum = read_be16(input, 2);
        if code == 0 {
            if n < ICMP_ECHO_LENGTH {
                return DecodeOutcome::NeedMoreData(Needed::Size(ICMP_ECHO_LENGTH));
            }
            let echo = IcmpEcho {
                identifier: read_be16(input, 4),
                sequence_number: read_be16(input, 6),
                payload: Some(slice_to_vec(slice_subrange(input, 8, n))),
            };
            let packet = IcmpPacket {
                message_type,
                code,
                checksum,
                data: Some(IcmpData::Echo(echo)),
            };
            DecodeOutcome::Decoded(Layer::Icmp(packet), n, ParserState::Stop)
        } else {
            let packet = IcmpPacket { message_type, code, checksum, data: None };
            DecodeOutcome::Decoded(Layer::Icmp(packet), ICMP_HEADER_LENGTH, ParserState::Stop)
        }
    }

    /// The variant tag under which the dispatch engine registers this
    /// decoding unit.
    pub fn variant(&self) -> (r: ParserVariant)
        ensures
            r == ParserVariant::Icmp(IcmpParser),
    {
        ParserVariant::Icmp(IcmpParser)
    }
}

} // verus!
