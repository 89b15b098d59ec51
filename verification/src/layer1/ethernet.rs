//! Ethernet related packet processing.

use vstd::prelude::*;

use crate::bytes::be16_at;
use crate::layer::DecodeOutcome;
use crate::layer::DecodeOutcomeView;
use crate::layer::InvalidKind;
use crate::layer::Layer;
use crate::layer::LayerView;
use crate::layer::Needed;
use crate::layer::ParserState;
use crate::layer::ParserVariant;

verus! {

/// Length in octets of an Ethernet II frame header.
pub const ETHERNET_HEADER_LENGTH: usize = 14;

/// The Ethernet decoding unit.
#[derive(Debug, Clone, Copy)]
pub struct EthernetParser;

/// Representation of a mac network address, usually rendered in the
/// format "ff:ff:ff:ff:ff:ff".
#[derive(Debug, Clone, Copy, Default, PartialEq, Eq, Hash, Structural)]
pub struct MacAddress(pub u8, pub u8, pub u8, pub u8, pub u8, pub u8);

/// Supported `EtherType` values.
#[derive(Debug, Clone, Copy, PartialEq, Eq, Hash, Structural)]
pub enum EtherType {
    /// Internet Protocol Version 4
    Ipv4,
    /// Address Resolution Protocol
    Arp,
    /// Internet Protocol Version 6
    Ipv6,
}

/// Representation of the Ethernet frame header.
#[derive(Debug, Clone, Copy, PartialEq, Eq, Structural)]
pub struct EthernetPacket {
    /// Destination mac address
    pub dst: MacAddress,
    /// Source mac address
    pub src: MacAddress,
    /// EtherType of the packet
    pub ethertype: EtherType,
}

impl EtherType {
    /// The `EtherType`, if any, that a 16-bit wire value enumerates.
    pub open spec fn spec_from_u16(input: u16) -> Option<EtherType> {
        if input == 0x0800 {
            Some(EtherType::Ipv4)
        } else if input == 0x0806 {
            Some(EtherType::Arp)
        } else if input == 0x86DD {
            Some(EtherType::Ipv6)
        } else {
            None
        }
    }

    /// Convert a u16 to an `EtherType`. Returns None if the value is not
    /// an enumerated type.
    pub fn from_u16(input: u16) -> (r: Option<EtherType>)
        ensures
            r == Self::spec_from_u16(input),
    {
        match input {
            0x0800 => Some(EtherType::Ipv4),
            0x0806 => Some(EtherType::Arp),
            0x86DD => Some(EtherType::Ipv6),
            _ => None,
        }
    }
}

/// The mac address whose octets start at offset `i` of `s`.
pub open spec fn mac_at(s: Seq<u8>, i: int) -> MacAddress
    recommends
        0 <= i,
        i + 6 <= s.len(),
{
    MacAddress(s[i], s[i + 1], s[i + 2], s[i + 3], s[i + 4], s[i + 5])
}

/// The decode outcome that an Ethernet decoding unit owes for `s`.
///
/// Ethernet is the root of the dispatch topology, so no parent
/// validation takes place.  A frame shorter than the fixed header needs
/// more data; an EtherType outside the enumerated set is invalid at the
/// offset of that field.
pub open spec fn spec_parse_ethernet(s: Seq<u8>) -> DecodeOutcomeView {
    if s.len() < 14 {
        DecodeOutcomeView::NeedMoreData(Needed::Size(14))
    } else {
        match EtherType::spec_from_u16(be16_at(s, 12)) {
            Some(e) => DecodeOutcomeView::Decoded(
                LayerView::Ethernet(
                    EthernetPacket { dst: mac_at(s, 0), src: mac_at(s, 6), ethertype: e },
                ),
                14,
                ParserState::ContinueWithFirstChild,
            ),
            None => DecodeOutcomeView::Invalid(InvalidKind::UnknownCode, 12),
        }
    }
}

/// Truncating a decodable frame below the fixed header length asks for
/// more data, never reports it invalid.
pub proof fn lemma_ethernet_truncation(s: Seq<u8>)
    requires
        spec_parse_ethernet(s) is Decoded,
    ensures
        spec_parse_ethernet(s.take(ETHERNET_HEADER_LENGTH - 1)) == DecodeOutcomeView::NeedMoreData(
            Needed::Size(ETHERNET_HEADER_LENGTH),
        ),
{
}

/// Every EtherType value outside the enumerated set is refused at the
/// byte offset of the EtherType field.
pub proof fn lemma_ethernet_unknown_ethertype(s: Seq<u8>)
    requires
        s.len() >= 14,
        EtherType::spec_from_u16(be16_at(s, 12)) is None,
    ensures
        spec_parse_ethernet(s) == DecodeOutcomeView::Invalid(InvalidKind::UnknownCode, 12),
{
}

impl EthernetParser {
    /// Decodes an `EthernetPacket` from the start of `input`.
    ///
    /// The prior layer stack is ignored: Ethernet is the root of the
    /// topology and has no parent to validate.
    pub fn parse(&self, input: &[u8], _prior: Option<&Vec<Layer>>) -> (r: DecodeOutcome)
        ensures
            r@ == spec_parse_ethernet(input@),
    {
        if input.len() < ETHERNET_HEADER_LENGTH {
            return DecodeOutcome::NeedMoreData(Needed::Size(ETHERNET_HEADER_LENGTH));
        }
        let ethertype_raw = crate::bytes::read_be16(input, 12);
        match EtherType::from_u16(ethertype_raw) {
            Some(e) => DecodeOutcome::Decoded(
                Layer::Ethernet(
                    EthernetPacket {
                        dst: MacAddress(input[0], input[1], input[2], input[3], input[4], input[5]),
                        src: MacAddress(
                            input[6],
                            input[7],
                            input[8],
                            input[9],
                            input[10],
                            input[11],
                        ),
                        ethertype: e,
                    },
                ),
                ETHERNET_HEADER_LENGTH,
                ParserState::ContinueWithFirstChild,
            ),
            None => DecodeOutcome::Invalid(InvalidKind::UnknownCode, 12),
        }
    }

    /// The variant tag under which the dispatch engine registers this
    /// decoding unit.
    pub fn variant(&self) -> (r: ParserVariant)
        ensures
            r == ParserVariant::Ethernet(EthernetParser),
    {
        ParserVariant::Ethernet(EthernetParser)
    }
}

} // verus!
