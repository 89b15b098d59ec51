//! Transmission Control Protocol related packet processing.

use vstd::prelude::*;

use crate::bytes::be16_at;
use crate::bytes::be32_at;
use crate::bytes::read_be16;
use crate::bytes::read_be32;
use crate::layer::DecodeOutcome;
use crate::layer::DecodeOutcomeView;
use crate::layer::InvalidKind;
use crate::layer::Layer;
use crate::layer::LayerView;
use crate::layer::Needed;
use crate::layer::ParserState;
use crate::layer::ParserVariant;
use crate::layer::prior_view;
use crate::layer2::ipv4::IpProtocol;
use crate::layer3::spec_flow_identifier;
use crate::layer3::track_connection;
use crate::track::FlowTracker;
use crate::track::TrackError;
use vstd::slice::slice_subrange;
use vstd::slice::slice_to_vec;

verus! {

/// Length in octets of the fixed TCP header, without options.
pub const TCP_HEADER_LENGTH: usize = 20;

/// The TCP decoding unit.
#[derive(Debug, Clone, Copy)]
pub struct TcpParser;

/// Representation of a Transmission Control Protocol packet header.
#[derive(Debug, PartialEq, Eq)]
pub struct TcpHeader {
    /// Identifies the sending port
    pub source_port: u16,
    /// Identifies the receiving port
    pub dest_port: u16,
    /// The sequence number of the first data byte of this segment, or
    /// the initial sequence number if the SYN flag is set
    pub sequence_no: u32,
    /// If the ACK flag is set, the next sequence number that the sender
    /// is expecting
    pub ack_no: u32,
    /// Offset in octets from the start of the segment to the data,
    /// covering the fixed header and the options
    pub data_offset: u8,
    /// For future use, should be zero
    pub reserved: u8,
    /// Indicates that the urgent pointer field is significant
    pub flag_urg: bool,
    /// Indicates that the acknowledgment field is significant
    pub flag_ack: bool,
    /// Push function: asks to hand the buffered data to the receiving
    /// application
    pub flag_psh: bool,
    /// Reset the connection
    pub flag_rst: bool,
    /// Synchronize sequence numbers
    pub flag_syn: bool,
    /// No more data from sender
    pub flag_fin: bool,
    /// The size of the receive window
    pub window: u16,
    /// Error-checking of the header and data
    pub checksum: u16,
    /// If the URG flag is set, an offset from the sequence number
    /// indicating the last urgent data byte
    pub urgent_pointer: u16,
    /// The option octets; their length is determined by the data offset
    /// field
    pub options: Vec<u8>,
}

/// Representation of a Transmission Control Protocol packet.
#[derive(Debug, PartialEq, Eq)]
pub struct TcpPacket {
    /// The header of the TCP packet
    pub header: TcpHeader,
    /// Set to some error code if the connection tracking failed
    pub path_error: Option<TrackError>,
}

/// The mathematical value of a `TcpHeader`.
pub struct TcpHeaderView {
    /// Source port field
    pub source_port: u16,
    /// Destination port field
    pub dest_port: u16,
    /// Sequence number field
    pub sequence_no: u32,
    /// Acknowledgment number field
    pub ack_no: u32,
    /// Data offset in octets
    pub data_offset: u8,
    /// Reserved bits
    pub reserved: u8,
    /// Urgent flag
    pub flag_urg: bool,
    /// Acknowledgment flag
    pub flag_ack: bool,
    /// Push flag
    pub flag_psh: bool,
    /// Reset flag
    pub flag_rst: bool,
    /// Synchronize flag
    pub flag_syn: bool,
    /// Finish flag
    pub flag_fin: bool,
    /// Window size field
    pub window: u16,
    /// Checksum field
    pub checksum: u16,
    /// Urgent pointer field
    pub urgent_pointer: u16,
    /// Option octets
    pub options: Seq<u8>,
}

/// The mathematical value of a `TcpPacket`.
pub struct TcpPacketView {
    /// Header fields
    pub header: TcpHeaderView,
    /// Recorded flow-tracking outcome
    pub path_error: Option<TrackError>,
}

impl View for TcpHeader {
    type V = TcpHeaderView;

    open spec fn view(&self) -> TcpHeaderView {
        TcpHeaderView {
            source_port: self.source_port,
            dest_port: self.dest_port,
            sequence_no: self.sequence_no,
            ack_no: self.ack_no,
            data_offset: self.data_offset,
            reserved: self.reserved,
            flag_urg: self.flag_urg,
            flag_ack: self.flag_ack,
            flag_psh: self.flag_psh,
            flag_rst: self.flag_rst,
            flag_syn: self.flag_syn,
            flag_fin: self.flag_fin,
            window: self.window,
            checksum: self.checksum,
            urgent_pointer: self.urgent_pointer,
            options: self.options@,
        }
    }
}

impl View for TcpPacket {
    type V = TcpPacketView;

    open spec fn view(&self) -> TcpPacketView {
        TcpPacketView { header: self.header@, path_error: self.path_error }
    }
}

/// Whether the layer stack decoded so far permits a TCP header next:
/// no stack (standalone mode), or an Internet layer declaring TCP as
/// its transport protocol.
pub open spec fn spec_tcp_parent_ok(prior: Option<Seq<LayerView>>) -> bool {
    match prior {
        None => true,
        Some(stack) => stack.len() > 0 && match stack[stack.len() - 1] {
            LayerView::Ipv4(p) => p.protocol == IpProtocol::Tcp,
            LayerView::Ipv6(p) => p.next_header == IpProtocol::Tcp,
            _ => false,
        },
    }
}

/// The data offset of a TCP header in octets: the upper nibble of the
/// thirteenth octet, counted in 32-bit words.
pub open spec fn spec_tcp_data_offset(s: Seq<u8>) -> int
    recommends
        s.len() >= 13,
{
    (s[12] / 16) * 4
}

/// The TCP header read from the first `spec_tcp_data_offset(s)` octets
/// of `s`: the fixed fields followed by the option octets.
pub open spec fn spec_tcp_header(s: Seq<u8>) -> TcpHeaderView
    recommends
        20 <= spec_tcp_data_offset(s) <= s.len(),
{
    TcpHeaderView {
        source_port: be16_at(s, 0),
        dest_port: be16_at(s, 2),
        sequence_no: be32_at(s, 4),
        ack_no: be32_at(s, 8),
        data_offset: spec_tcp_data_offset(s) as u8,
        reserved: ((s[12] % 16) * 4 + s[13] / 64) as u8,
        flag_urg: (s[13] / 32) % 2 == 1,
        flag_ack: (s[13] / 16) % 2 == 1,
        flag_psh: (s[13] / 8) % 2 == 1,
        flag_rst: (s[13] / 4) % 2 == 1,
        flag_syn: (s[13] / 2) % 2 == 1,
        flag_fin: s[13] % 2 == 1,
        window: be16_at(s, 14),
        checksum: be16_at(s, 16),
        urgent_pointer: be16_at(s, 18),
        options: s.subrange(20, spec_tcp_data_offset(s)),
    }
}

/// The decode outcome that a TCP decoding unit owes for `s` atop the
/// given stack, when the flow hook reported `path_error`.
///
/// The hook's outcome is a parameter because it is decided by the
/// external tracker; everything else is a function of the input octets
/// and the stack alone.  A data offset below the fixed header length is
/// a length underflow and therefore invalid, never a request for more
/// data.
pub open spec fn spec_parse_tcp(
    s: Seq<u8>,
    prior: Option<Seq<LayerView>>,
    path_error: Option<TrackError>,
) -> DecodeOutcomeView {
    if !spec_tcp_parent_ok(prior) {
        DecodeOutcomeView::Invalid(InvalidKind::ParentMismatch, 0)
    } else if s.len() < 20 {
        DecodeOutcomeView::NeedMoreData(Needed::Size(20))
    } else if spec_tcp_data_offset(s) < 20 {
        DecodeOutcomeView::Invalid(InvalidKind::LengthUnderflow, 12)
    } else if s.len() < spec_tcp_data_offset(s) {
        DecodeOutcomeView::NeedMoreData(Needed::Size(spec_tcp_data_offset(s) as usize))
    } else {
        DecodeOutcomeView::Decoded(
            LayerView::Tcp(TcpPacketView { header: spec_tcp_header(s), path_error }),
            spec_tcp_data_offset(s) as usize,
            ParserState::ContinueWithChildren,
        )
    }
}

/// The flow-tracking annotation carried by a decoded TCP layer; `None`
/// for every other outcome.
pub open spec fn spec_tcp_path_error(o: DecodeOutcomeView) -> Option<TrackError> {
    match o {
        DecodeOutcomeView::Decoded(LayerView::Tcp(p), _, _) => p.path_error,
        _ => None,
    }
}

/// Truncating a decodable header below the fixed length asks for more
/// data, never reports it invalid.
pub proof fn lemma_tcp_truncation(
    s: Seq<u8>,
    prior: Option<Seq<LayerView>>,
    path_error: Option<TrackError>,
)
    requires
        spec_parse_tcp(s, prior, path_error) is Decoded,
    ensures
        spec_parse_tcp(s.take(TCP_HEADER_LENGTH - 1), prior, path_error)
            == DecodeOutcomeView::NeedMoreData(Needed::Size(TCP_HEADER_LENGTH)),
{
}

/// A data offset that announces fewer octets than the fixed header
/// itself is a length underflow: the input is invalid, never a reason
/// to wait for more data.
pub proof fn lemma_tcp_options_underflow(
    s: Seq<u8>,
    prior: Option<Seq<LayerView>>,
    path_error: Option<TrackError>,
)
    requires
        spec_tcp_parent_ok(prior),
        s.len() >= 20,
        spec_tcp_data_offset(s) < 20,
    ensures
        spec_parse_tcp(s, prior, path_error) == DecodeOutcomeView::Invalid(
            InvalidKind::LengthUnderflow,
            12,
        ),
{
}

/// Parent validation is necessary and order-independent: without a
/// stack the check is skipped and the content is judged on its own;
/// with a stack, an ineligible last element is refused whatever the
/// payload, and an eligible one makes the outcome that of standalone
/// decoding, whatever stands deeper in the stack.
pub proof fn lemma_tcp_parent_validation(
    s: Seq<u8>,
    stack: Seq<LayerView>,
    path_error: Option<TrackError>,
)
    ensures
        !spec_tcp_parent_ok(Some(stack)) ==> spec_parse_tcp(s, Some(stack), path_error)
            == DecodeOutcomeView::Invalid(InvalidKind::ParentMismatch, 0),
        spec_tcp_parent_ok(Some(stack)) ==> spec_parse_tcp(s, Some(stack), path_error)
            == spec_parse_tcp(s, None, path_error),
{
}

impl TcpParser {
    /// Decodes a `TcpPacket` from the start of `input`, after checking
    /// that the stack decoded so far ends in an Internet layer that
    /// declares TCP.  A `prior` of `None` skips the parent check; this
    /// is the sanctioned mode for decoding a packet in isolation.
    ///
    /// Once the header is extracted, the flow hook hands the 5-tuple
    /// identifier to `tracker`; the tracker's verdict is embedded as
    /// `path_error` and never fails the decode.
    pub fn parse<T: FlowTracker>(
        &self,
        input: &[u8],
        prior: Option<&Vec<Layer>>,
        tracker: &mut T,
    ) -> (r: DecodeOutcome)
        ensures
            r@ == spec_parse_tcp(input@, prior_view(prior), spec_tcp_path_error(r@)),
            spec_flow_identifier(prior_view(prior), be16_at(input@, 0), be16_at(input@, 2))
                is None ==> spec_tcp_path_error(r@) == None::<TrackError>,
    {
        let parent_ok: bool = match prior {
            None => true,
            Some(stack) => {
                if stack.len() == 0 {
                    false
                } else {
                    match &stack[stack.len() - 1] {
                        Layer::Ipv4(p) => p.protocol == IpProtocol::Tcp,
                        Layer::Ipv6(p) => p.next_header == IpProtocol::Tcp,
                        _ => false,
                    }
                }
            },
        };
        if !parent_ok {
            return DecodeOutcome::Invalid(InvalidKind::ParentMismatch, 0);
        }
        let n = input.len();
        if n < TCP_HEADER_LENGTH {
            return DecodeOutcome::NeedMoreData(Needed::Size(TCP_HEADER_LENGTH));
        }
        let data_offset: u8 = (input[12] / 16) * 4;
        if data_offset < 20 {
            return DecodeOutcome::Invalid(InvalidKind::LengthUnderflow, 12);
        }
        if n < data_offset as usize {
            return DecodeOutcome::NeedMoreData(Needed::Size(data_offset as usize));
        }
        let source_port = read_be16(input, 0);
        let dest_port = read_be16(input, 2);
        let path_error = match track_connection(tracker, prior, source_port, dest_port) {
            Ok(()) => None,
            Err(e) => Some(e),
        };
        let flags = input[13];
        let packet = TcpPacket {
            header: TcpHeader {
                source_port,
                dest_port,
                sequence_no: read_be32(input, 4),
                ack_no: read_be32(input, 8),
                data_offset,
                reserved: (input[12] % 16) * 4 + flags / 64,
                flag_urg: (flags / 32) % 2 == 1,
                flag_ack: (flags / 16) % 2 == 1,
                flag_psh: (flags / 8) % 2 == 1,
                flag_rst: (flags / 4) % 2 == 1,
                flag_syn: (flags / 2) % 2 == 1,
                flag_fin: flags % 2 == 1,
                window: read_be16(input, 14),
                checksum: read_be16(input, 16),
                urgent_pointer: read_be16(input, 18),
                options: slice_to_vec(slice_subrange(input, 20, data_offset as usize)),
            },
            path_error,
        };
        DecodeOutcome::Decoded(
            Layer::Tcp(packet),
            data_offset as usize,
            ParserState::ContinueWithChildren,
        )
    }

    /// The variant tag under which the dispatch engine registers this
    /// decoding unit.
    pub fn variant(&self) -> (r: ParserVariant)
        ensures
            r == ParserVariant::Tcp(TcpParser),
    {
        ParserVariant::Tcp(TcpParser)
    }
}

} // verus!
