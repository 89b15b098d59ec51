//! Address Resolution Protocol related packet processing.

use vstd::prelude::*;

use crate::addr::ipv4_at;
use crate::addr::Ipv4Address;
use crate::bytes::read_be16;
use crate::layer::DecodeOutcome;
use crate::layer::DecodeOutcomeView;
use crate::layer::InvalidKind;
use crate::layer::Layer;
use crate::layer::LayerView;
use crate::layer::Needed;
use crate::layer::ParserState;
use crate::layer::ParserVariant;
use crate::layer::prior_view;
use crate::layer1::ethernet::mac_at;
use crate::layer1::ethernet::EtherType;
use crate::layer1::ethernet::MacAddress;

verus! {

/// Length in octets of an ARP packet for IPv4 over Ethernet.
pub const ARP_PACKET_LENGTH: usize = 28;

/// The ARP decoding unit.
#[derive(Debug, Clone, Copy)]
pub struct ArpParser;

/// Supported ARP hardware types.
#[derive(Debug, Clone, Copy, PartialEq, Eq, Hash, Structural)]
pub enum ArpHardwareType {
    /// Ethernet (10Mb)
    Ethernet,
}

/// Supported ARP operations.
#[derive(Debug, Clone, Copy, PartialEq, Eq, Hash, Structural)]
pub enum ArpOperation {
    /// ARP requests
    Request,
    /// ARP responses
    Reply,
    /// Reverse ARP requests
    ReverseRequest,
    /// Reverse ARP responses
    ReverseReply,
}

/// Representation of the ARP packet structure.
#[derive(Debug, Clone, Copy, PartialEq, Eq, Structural)]
pub struct ArpPacket {
    /// This field specifies the network link protocol type. Ethernet is 1.
    pub hardware_type: ArpHardwareType,
    /// The internetwork protocol for which the ARP request is intended.
    /// For IPv4 this has the value 0x0800; the permitted values share a
    /// numbering space with those for EtherType.
    pub protocol_type: EtherType,
    /// Length (in octets) of a hardware address. Ethernet address size is 6.
    pub hardware_length: u8,
    /// Length (in octets) of addresses used in the upper layer protocol.
    /// IPv4 address size is 4.
    pub protocol_length: u8,
    /// The operation that the sender is performing.
    pub operation: ArpOperation,
    /// Media address of the sender.
    pub sender_hardware_address: MacAddress,
    /// Internetwork address of the sender.
    pub sender_protocol_address: Ipv4Address,
    /// Media address of the intended receiver.
    pub target_hardware_address: MacAddress,
    /// Internetwork address of the intended receiver.
    pub target_protocol_address: Ipv4Address,
}

impl ArpHardwareType {
    /// The hardware type, if any, that a 16-bit wire value enumerates.
    pub open spec fn spec_from_u16(input: u16) -> Option<ArpHardwareType> {
        if input == 1 {
            Some(ArpHardwareType::Ethernet)
        } else {
            None
        }
    }

    /// Convert a u16 to an `ArpHardwareType`. Returns None if the value
    /// is not an enumerated type.
    pub fn from_u16(input: u16) -> (r: Option<ArpHardwareType>)
        ensures
            r == Self::spec_from_u16(input),
    {
        match input {
            1 => Some(ArpHardwareType::Ethernet),
            _ => None,
        }
    }
}

impl ArpOperation {
    /// The operation, if any, that a 16-bit wire value enumerates.
    pub open spec fn spec_from_u16(input: u16) -> Option<ArpOperation> {
        if input == 1 {
            Some(ArpOperation::Request)
        } else if input == 2 {
            Some(ArpOperation::Reply)
        } else if input == 3 {
            Some(ArpOperation::ReverseRequest)
        } else if input == 4 {
            Some(ArpOperation::ReverseReply)
        } else {
            None
        }
    }

    /// Convert a u16 to an `ArpOperation`. Returns None if the value is
    /// not an enumerated operation.
    pub fn from_u16(input: u16) -> (r: Option<ArpOperation>)
        ensures
            r == Self::spec_from_u16(input),
    {
        match input {
            1 => Some(ArpOperation::Request),
            2 => Some(ArpOperation::Reply),
            3 => Some(ArpOperation::ReverseRequest),
            4 => Some(ArpOperation::ReverseReply),
            _ => None,
        }
    }
}

/// Whether the layer stack decoded so far permits an ARP packet next:
/// either the check is skipped because no stack was given (standalone
/// mode), or the last decoded layer is an Ethernet frame whose
/// EtherType announces ARP.
pub open spec fn spec_arp_parent_ok(prior: Option<Seq<LayerView>>) -> bool {
    match prior {
        None => true,
        Some(stack) => stack.len() > 0 && match stack[stack.len() - 1] {
            LayerView::Ethernet(e) => e.ethertype == EtherType::Arp,
            _ => false,
        },
    }
}

/// The ARP packet read from the first 28 octets of `s`.
pub open spec fn spec_arp_packet(s: Seq<u8>) -> ArpPacket
    recommends
        s.len() >= 28,
        ArpHardwareType::spec_from_u16(crate::bytes::be16_at(s, 0)) is Some,
        EtherType::spec_from_u16(crate::bytes::be16_at(s, 2)) is Some,
        ArpOperation::spec_from_u16(crate::bytes::be16_at(s, 6)) is Some,
{
    ArpPacket {
        hardware_type: ArpHardwareType::spec_from_u16(crate::bytes::be16_at(s, 0))->Some_0,
        protocol_type: EtherType::spec_from_u16(crate::bytes::be16_at(s, 2))->Some_0,
        hardware_length: s[4],
        protocol_length: s[5],
        operation: ArpOperation::spec_from_u16(crate::bytes::be16_at(s, 6))->Some_0,
        sender_hardware_address: mac_at(s, 8),
        sender_protocol_address: ipv4_at(s, 14),
        target_hardware_address: mac_at(s, 18),
        target_protocol_address: ipv4_at(s, 24),
    }
}

/// The decode outcome that an ARP decoding unit owes for `s` atop the
/// given stack.
///
/// The parent check comes first.  The three enumerated fields are then
/// judged in wire order, each as soon as its octets are available; only
/// when every available check has passed does a short input ask for
/// more data.
pub open spec fn spec_parse_arp(s: Seq<u8>, prior: Option<Seq<LayerView>>) -> DecodeOutcomeView {
    if !spec_arp_parent_ok(prior) {
        DecodeOutcomeView::Invalid(InvalidKind::ParentMismatch, 0)
    } else if s.len() >= 2 && ArpHardwareType::spec_from_u16(crate::bytes::be16_at(s, 0)) is None {
        DecodeOutcomeView::Invalid(InvalidKind::UnknownCode, 0)
    } else if s.len() >= 4 && EtherType::spec_from_u16(crate::bytes::be16_at(s, 2)) is None {
        DecodeOutcomeView::Invalid(InvalidKind::UnknownCode, 2)
    } else if s.len() >= 8 && ArpOperation::spec_from_u16(crate::bytes::be16_at(s, 6)) is None {
        DecodeOutcomeView::Invalid(InvalidKind::UnknownCode, 6)
    } else if s.len() < 28 {
        DecodeOutcomeView::NeedMoreData(Needed::Size(28))
    } else {
        DecodeOutcomeView::Decoded(LayerView::Arp(spec_arp_packet(s)), 28, ParserState::Stop)
    }
}

/// Truncating a decodable packet below the fixed length asks for more
/// data, never reports it invalid.
pub proof fn lemma_arp_truncation(s: Seq<u8>, prior: Option<Seq<LayerView>>)
    requires
        spec_parse_arp(s, prior) is Decoded,
    ensures
        spec_parse_arp(s.take(ARP_PACKET_LENGTH - 1), prior) == DecodeOutcomeView::NeedMoreData(
            Needed::Size(ARP_PACKET_LENGTH),
        ),
{
}

/// Every hardware type value outside the enumerated set is refused at
/// the byte offset of the hardware type field.
pub proof fn lemma_arp_unknown_hardware_type(s: Seq<u8>, prior: Option<Seq<LayerView>>)
    requires
        spec_arp_parent_ok(prior),
        s.len() >= 2,
        ArpHardwareType::spec_from_u16(crate::bytes::be16_at(s, 0)) is None,
    ensures
        spec_parse_arp(s, prior) == DecodeOutcomeView::Invalid(InvalidKind::UnknownCode, 0),
{
}

/// Every protocol type value outside the enumerated set is refused at
/// the byte offset of the protocol type field.
pub proof fn lemma_arp_unknown_protocol_type(s: Seq<u8>, prior: Option<Seq<LayerView>>)
    requires
        spec_arp_parent_ok(prior),
        s.len() >= 4,
        ArpHardwareType::spec_from_u16(crate::bytes::be16_at(s, 0)) is Some,
        EtherType::spec_from_u16(crate::bytes::be16_at(s, 2)) is None,
    ensures
        spec_parse_arp(s, prior) == DecodeOutcomeView::Invalid(InvalidKind::UnknownCode, 2),
{
}

/// Every operation value outside the enumerated set is refused at the
/// byte offset of the operation field.
pub proof fn lemma_arp_unknown_operation(s: Seq<u8>, prior: Option<Seq<LayerView>>)
    requires
        spec_arp_parent_ok(prior),
        s.len() >= 8,
        ArpHardwareType::spec_from_u16(crate::bytes::be16_at(s, 0)) is Some,
        EtherType::spec_from_u16(crate::bytes::be16_at(s, 2)) is Some,
        ArpOperation::spec_from_u16(crate::bytes::be16_at(s, 6)) is None,
    ensures
        spec_parse_arp(s, prior) == DecodeOutcomeView::Invalid(InvalidKind::UnknownCode, 6),
{
}

/// Parent validation is necessary and order-independent: without a
/// stack the check is skipped and the content is judged on its own;
/// with a stack, an ineligible last element is refused whatever the
/// payload, and an eligible one makes the outcome that of standalone
/// decoding, whatever stands deeper in the stack.
pub proof fn lemma_arp_parent_validation(s: Seq<u8>, stack: Seq<LayerView>)
    ensures
        !spec_arp_parent_ok(Some(stack)) ==> spec_parse_arp(s, Some(stack))
            == DecodeOutcomeView::Invalid(InvalidKind::ParentMismatch, 0),
        spec_arp_parent_ok(Some(stack)) ==> spec_parse_arp(s, Some(stack)) == spec_parse_arp(
            s,
            None,
        ),
{
}

impl ArpParser {
    /// Decodes an `ArpPacket` from the start of `input`, after checking
    /// that the stack decoded so far ends in an Ethernet frame carrying
    /// ARP.  A `prior` of `None` skips the parent check; this is the
    /// sanctioned mode for decoding a packet in isolation.
    pub fn parse(&self, input: &[u8], prior: Option<&Vec<Layer>>) -> (r: DecodeOutcome)
        ensures
            r@ == spec_parse_arp(input@, prior_view(prior)),
    {
        let parent_ok: bool = match prior {
            None => true,
            Some(stack) => {
                if stack.len() == 0 {
                    false
                } else {
                    match &stack[stack.len() - 1] {
                        Layer::Ethernet(e) => e.ethertype == EtherType::Arp,
                        _ => false,
                    }
                }
            },
        };
        if !parent_ok {
            return DecodeOutcome::Invalid(InvalidKind::ParentMismatch, 0);
        }
        let n = input.len();
        if n >= 2 && ArpHardwareType::from_u16(read_be16(input, 0)).is_none() {
            return DecodeOutcome::Invalid(InvalidKind::UnknownCode, 0);
        }
        if n >= 4 && EtherType::from_u16(read_be16(input, 2)).is_none() {
            return DecodeOutcome::Invalid(InvalidKind::UnknownCode, 2);
        }
        if n >= 8 && ArpOperation::from_u16(read_be16(input, 6)).is_none() {
            return DecodeOutcome::Invalid(InvalidKind::UnknownCode, 6);
        }
        if n < ARP_PACKET_LENGTH {
            return DecodeOutcome::NeedMoreData(Needed::Size(ARP_PACKET_LENGTH));
        }
        let packet = ArpPacket {
            hardware_type: ArpHardwareType::from_u16(read_be16(input, 0)).unwrap(),
            protocol_type: EtherType::from_u16(read_be16(input, 2)).unwrap(),
            hardware_length: input[4],
            protocol_length: input[5],
            operation: ArpOperation::from_u16(read_be16(input, 6)).unwrap(),
            sender_hardware_address: MacAddress(
                input[8],
                input[9],
                input[10],
                input[11],
                input[12],
                input[13],
            ),
            sender_protocol_address: Ipv4Address(input[14], input[15], input[16], input[17]),
            target_hardware_address: MacAddress(
                input[18],
                input[19],
                input[20],
                input[21],
                input[22],
                input[23],
            ),
            target_protocol_address: Ipv4Address(input[24], input[25], input[26], input[27]),
        };
        DecodeOutcome::Decoded(Layer::Arp(packet), ARP_PACKET_LENGTH, ParserState::Stop)
    }

    /// The variant tag under which the dispatch engine registers this
    /// decoding unit.
    pub fn variant(&self) -> (r: ParserVariant)
        ensures
            r == ParserVariant::Arp(ArpParser),
    {
        ParserVariant::Arp(ArpParser)
    }
}

} // verus!
