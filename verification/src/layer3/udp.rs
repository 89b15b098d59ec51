//! User Datagram Protocol related packet processing.

use vstd::prelude::*;

use crate::bytes::be16_at;
use crate::bytes::read_be16;
use crate::layer::DecodeOutcome;
use crate::layer::DecodeOutcomeView;
use crate::layer::InvalidKind;
use crate::layer::Layer;
use crate::layer::LayerView;
use crate::layer::Needed;
use crate::layer::ParserState;
use crate::layer::ParserVariant;
use crate::layer::prior_view;
use crate::layer2::ipv4::IpProtocol;
use crate::layer3::spec_flow_identifier;
use crate::layer3::track_connection;
use crate::track::FlowTracker;
use crate::track::TrackError;

verus! {

/// Length in octets of a UDP header.
pub const UDP_HEADER_LENGTH: usize = 8;

/// The UDP decoding unit.
#[derive(Debug, Clone, Copy)]
pub struct UdpParser;

/// Representation of a User Datagram Protocol packet header.
#[derive(Debug, Clone, Copy, PartialEq, Eq, Structural)]
pub struct UdpHeader {
    /// Identifies the sender's port when meaningful; zero if unused
    pub source_port: u16,
    /// Identifies the receiver's port
    pub dest_port: u16,
    /// The length in octets of the UDP header and UDP data
    pub length: u16,
    /// Error-checking of the header and data; all zeros if unused
    pub checksum: u16,
}

/// Representation of a User Datagram Protocol packet.
#[derive(Debug, Clone, Copy, PartialEq, Eq, Structural)]
pub struct UdpPacket {
    /// The header of the UDP packet
    pub header: UdpHeader,
    /// Set to some error code if the connection tracking failed
    pub path_error: Option<TrackError>,
}

/// Whether the layer stack decoded so far permits a UDP header next:
/// no stack (standalone mode), or an Internet layer declaring UDP as
/// its transport protocol.
pub open spec fn spec_udp_parent_ok(prior: Option<Seq<LayerView>>) -> bool {
    match prior {
        None => true,
        Some(stack) => stack.len() > 0 && match stack[stack.len() - 1] {
            LayerView::Ipv4(p) => p.protocol == IpProtocol::Udp,
            LayerView::Ipv6(p) => p.next_header == IpProtocol::Udp,
            _ => false,
        },
    }
}

/// The UDP header read from the first 8 octets of `s`.
pub open spec fn spec_udp_header(s: Seq<u8>) -> UdpHeader
    recommends
        s.len() >= 8,
{
    UdpHeader {
        source_port: be16_at(s, 0),
        dest_port: be16_at(s, 2),
        length: be16_at(s, 4),
        checksum: be16_at(s, 6),
    }
}

/// The decode outcome that a UDP decoding unit owes for `s` atop the
/// given stack, when the flow hook reported `path_error`.
///
/// The hook's outcome is a parameter because it is decided by the
/// external tracker; everything else is a function of the input octets
/// and the stack alone.
pub open spec fn spec_parse_udp(
    s: Seq<u8>,
    prior: Option<Seq<LayerView>>,
    path_error: Option<TrackError>,
) -> DecodeOutcomeView {
    if !spec_udp_parent_ok(prior) {
        DecodeOutcomeView::Invalid(InvalidKind::ParentMismatch, 0)
    } else if s.len() < 8 {
        DecodeOutcomeView::NeedMoreData(Needed::Size(8))
    } else {
        DecodeOutcomeView::Decoded(
            LayerView::Udp(UdpPacket { header: spec_udp_header(s), path_error }),
            8,
            ParserState::ContinueWithChildren,
        )
    }
}

/// The flow-tracking annotation carried by a decoded UDP layer; `None`
/// for every other outcome.
pub open spec fn spec_udp_path_error(o: DecodeOutcomeView) -> Option<TrackError> {
    match o {
        DecodeOutcomeView::Decoded(LayerView::Udp(p), _, _) => p.path_error,
        _ => None,
    }
}

/// Truncating a decodable header below the fixed length asks for more
/// data, never reports it invalid.
pub proof fn lemma_udp_truncation(
    s: Seq<u8>,
    prior: Option<Seq<LayerView>>,
    path_error: Option<TrackError>,
)
    requires
        spec_parse_udp(s, prior, path_error) is Decoded,
    ensures
        spec_parse_udp(s.take(UDP_HEADER_LENGTH - 1), prior, path_error)
            == DecodeOutcomeView::NeedMoreData(Needed::Size(UDP_HEADER_LENGTH)),
{
}

/// Parent validation is necessary and order-independent: without a
/// stack the check is skipped and the content is judged on its own;
/// with a stack, an ineligible last element is refused whatever the
/// payload, and an eligible one makes the outcome that of standalone
/// decoding, whatever stands deeper in the stack.
pub proof fn lemma_udp_parent_validation(
    s: Seq<u8>,
    stack: Seq<LayerView>,
    path_error: Option<TrackError>,
)
    ensures
        !spec_udp_parent_ok(Some(stack)) ==> spec_parse_udp(s, Some(stack), path_error)
            == DecodeOutcomeView::Invalid(InvalidKind::ParentMismatch, 0),
        spec_udp_parent_ok(Some(stack)) ==> spec_parse_udp(s, Some(stack), path_error)
            == spec_parse_udp(s, None, path_error),
{
}

impl UdpParser {
    /// Decodes a `UdpPacket` from the start of `input`, after checking
    /// that the stack decoded so far ends in an Internet layer that
    /// declares UDP.  A `prior` of `None` skips the parent check; this
    /// is the sanctioned mode for decoding a packet in isolation.
    ///
    /// Once the header is extracted, the flow hook hands the 5-tuple
    /// identifier to `tracker`; the tracker's verdict is embedded as
    /// `path_error` and never fails the decode.
    pub fn parse<T: FlowTracker>(
        &self,
        input: &[u8],
        prior: Option<&Vec<Layer>>,
        tracker: &mut T,
    ) -> (r: DecodeOutcome)
        ensures
            r@ == spec_parse_udp(input@, prior_view(prior), spec_udp_path_error(r@)),
            spec_flow_identifier(prior_view(prior), be16_at(input@, 0), be16_at(input@, 2))
                is None ==> spec_udp_path_error(r@) == None::<TrackError>,
    {
        let parent_ok: bool = match prior {
            None => true,
            Some(stack) => {
                if stack.len() == 0 {
                    false
                } else {
                    match &stack[stack.len() - 1] {
                        Layer::Ipv4(p) => p.protocol == IpProtocol::Udp,
                        Layer::Ipv6(p) => p.next_header == IpProtocol::Udp,
                        _ => false,
                    }
                }
            },
        };
        if !parent_ok {
            return DecodeOutcome::Invalid(InvalidKind::ParentMismatch, 0);
        }
        if input.len() < UDP_HEADER_LENGTH {
            return DecodeOutcome::NeedMoreData(Needed::Size(UDP_HEADER_LENGTH));
        }
        let source_port = read_be16(input, 0);
        let dest_port = read_be16(input, 2);
        let path_error = match track_connection(tracker, prior, source_port, dest_port) {
            Ok(()) => None,
            Err(e) => Some(e),
        };
        let packet = UdpPacket {
            header: UdpHeader {
                source_port,
                dest_port,
                length: read_be16(input, 4),
                checksum: read_be16(input, 6),
            },
            path_error,
        };
        DecodeOutcome::Decoded(
            Layer::Udp(packet),
            UDP_HEADER_LENGTH,
            ParserState::ContinueWithChildren,
        )
    }

    /// The variant tag under which the dispatch engine registers this
    /// decoding unit.
    pub fn variant(&self) -> (r: ParserVariant)
        ensures
            r == ParserVariant::Udp(UdpParser),
    {
        ParserVariant::Udp(UdpParser)
    }
}

} // verus!
