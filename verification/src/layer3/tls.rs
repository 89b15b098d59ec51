//! Transport layer security related packet processing.

use vstd::prelude::*;

use crate::bytes::be16_at;
use crate::bytes::read_be16;
use crate::layer::DecodeOutcome;
use crate::layer::DecodeOutcomeView;
use crate::layer::InvalidKind;
use crate::layer::Layer;
use crate::layer::LayerView;
use crate::layer::Needed;
use crate::layer::ParserState;
use crate::layer::ParserVariant;
use crate::layer::prior_view;

verus! {

/// Length in octets of a TLS record header.
pub const TLS_RECORD_HEADER_LENGTH: usize = 5;

/// The TLS decoding unit.
#[derive(Debug, Clone, Copy)]
pub struct TlsParser;

/// TLS record protocol content type.
#[derive(Debug, Clone, Copy, PartialEq, Eq, Hash, Structural)]
pub enum TlsRecordContentType {
    /// Change Cipher Spec
    ChangeCipherSpec,
    /// Alert
    Alert,
    /// Handshake
    Handshake,
    /// Application Data
    ApplicationData,
    /// Heartbeat
    Heartbeat,
}

/// TLS record protocol version.
#[derive(Debug, Clone, Copy, PartialEq, Eq, Structural)]
pub struct TlsRecordVersion {
    /// Major part of the TLS version
    pub major: u8,
    /// Minor part of the TLS version
    pub minor: u8,
}

/// Representation of a Transport layer security record header.
#[derive(Debug, Clone, Copy, PartialEq, Eq, Structural)]
pub struct TlsPacket {
    /// Content type of the record
    pub content_type: TlsRecordContentType,
    /// TLS version of the record
    pub version: TlsRecordVersion,
    /// Record length
    pub length: u16,
}

impl TlsRecordContentType {
    /// The content type, if any, that an 8-bit wire value enumerates.
    pub open spec fn spec_from_u8(input: u8) -> Option<TlsRecordContentType> {
        if input == 20 {
            Some(TlsRecordContentType::ChangeCipherSpec)
        } else if input == 21 {
            Some(TlsRecordContentType::Alert)
        } else if input == 22 {
            Some(TlsRecordContentType::Handshake)
        } else if input == 23 {
            Some(TlsRecordContentType::ApplicationData)
        } else if input == 24 {
            Some(TlsRecordContentType::Heartbeat)
        } else {
            None
        }
    }

    /// Convert a u8 to a `TlsRecordContentType`. Returns None if the
    /// value is not an enumerated content type.
    pub fn from_u8(input: u8) -> (r: Option<TlsRecordContentType>)
        ensures
            r == Self::spec_from_u8(input),
    {
        match input {
            20 => Some(TlsRecordContentType::ChangeCipherSpec),
            21 => Some(TlsRecordContentType::Alert),
            22 => Some(TlsRecordContentType::Handshake),
            23 => Some(TlsRecordContentType::ApplicationData),
            24 => Some(TlsRecordContentType::Heartbeat),
            _ => None,
        }
    }
}

/// Whether the layer stack decoded so far permits a TLS record next:
/// no stack (standalone mode), or a TCP header as the last decoded
/// layer.
pub open spec fn spec_tls_parent_ok(prior: Option<Seq<LayerView>>) -> bool {
    match prior {
        None => true,
        Some(stack) => stack.len() > 0 && (stack[stack.len() - 1] matches LayerView::Tcp(_)),
    }
}

/// The TLS record header read from the first 5 octets of `s`.
pub open spec fn spec_tls_packet(s: Seq<u8>) -> TlsPacket
    recommends
        s.len() >= 5,
        TlsRecordContentType::spec_from_u8(s[0]) is Some,
{
    TlsPacket {
        content_type: TlsRecordContentType::spec_from_u8(s[0])->Some_0,
        version: TlsRecordVersion { major: s[1], minor: s[2] },
        length: be16_at(s, 3),
    }
}

/// The decode outcome that a TLS decoding unit owes for `s` atop the
/// given stack.
pub open spec fn spec_parse_tls(s: Seq<u8>, prior: Option<Seq<LayerView>>) -> DecodeOutcomeView {
    if !spec_tls_parent_ok(prior) {
        DecodeOutcomeView::Invalid(InvalidKind::ParentMismatch, 0)
    } else if s.len() >= 1 && TlsRecordContentType::spec_from_u8(s[0]) is None {
        DecodeOutcomeView::Invalid(InvalidKind::UnknownCode, 0)
    } else if s.len() < 5 {
        DecodeOutcomeView::NeedMoreData(Needed::Size(5))
    } else {
        DecodeOutcomeView::Decoded(
            LayerView::Tls(spec_tls_packet(s)),
            5,
            ParserState::ContinueWithChildren,
        )
    }
}

/// Truncating a decodable record header below the fixed length asks
/// for more data, never reports it invalid.
pub proof fn lemma_tls_truncation(s: Seq<u8>, prior: Option<Seq<LayerView>>)
    requires
        spec_parse_tls(s, prior) is Decoded,
    ensures
        spec_parse_tls(s.take(TLS_RECORD_HEADER_LENGTH - 1), prior)
            == DecodeOutcomeView::NeedMoreData(Needed::Size(TLS_RECORD_HEADER_LENGTH)),
{
}

/// Every content type value outside the enumerated set is refused at
/// the byte offset of the content type field.
pub proof fn lemma_tls_unknown_content_type(s: Seq<u8>, prior: Option<Seq<LayerView>>)
    requires
        spec_tls_parent_ok(prior),
        s.len() >= 1,
        TlsRecordContentType::spec_from_u8(s[0]) is None,
    ensures
        spec_parse_tls(s, prior) == DecodeOutcomeView::Invalid(InvalidKind::UnknownCode, 0),
{
}

/// Parent validation is necessary and order-independent: without a
/// stack the check is skipped and the content is judged on its own;
/// with a stack, an ineligible last element is refused whatever the
/// payload, and an eligible one makes the outcome that of standalone
/// decoding, whatever stands deeper in the stack.
pub proof fn lemma_tls_parent_validation(s: Seq<u8>, stack: Seq<LayerView>)
    ensures
        !spec_tls_parent_ok(Some(stack)) ==> spec_parse_tls(s, Some(stack))
            == DecodeOutcomeView::Invalid(InvalidKind::ParentMismatch, 0),
        spec_tls_parent_ok(Some(stack)) ==> spec_parse_tls(s, Some(stack)) == spec_parse_tls(
            s,
            None,
        ),
{
}

impl TlsParser {
    /// Decodes a `TlsPacket` from the start of `input`, after checking
    /// that the stack decoded so far ends in a TCP header.  A `prior`
    /// of `None` skips the parent check; this is the sanctioned mode
    /// for decoding a record in isolation.
    pub fn parse(&self, input: &[u8], prior: Option<&Vec<Layer>>) -> (r: DecodeOutcome)
        ensures
            r@ == spec_parse_tls(input@, prior_view(prior)),
    {
        let parent_ok: bool = match prior {
            None => true,
            Some(stack) => {
                if stack.len() == 0 {
                    false
                } else {
                    match &stack[stack.len() - 1] {
                        Layer::Tcp(_) => true,
                        _ => false,
                    }
                }
            },
        };
        if !parent_ok {
            return DecodeOutcome::Invalid(InvalidKind::ParentMismatch, 0);
        }
        let n = input.len();
        if n >= 1 && TlsRecordContentType::from_u8(input[0]).is_none() {
            return DecodeOutcome::Invalid(InvalidKind::UnknownCode, 0);
        }
        if n < TLS_RECORD_HEADER_LENGTH {
            return DecodeOutcome::NeedMoreData(Needed::Size(TLS_RECORD_HEADER_LENGTH));
        }
        let packet = TlsPacket {
            content_type: TlsRecordContentType::from_u8(input[0]).unwrap(),
            version: TlsRecordVersion { major: input[1], minor: input[2] },
            length: read_be16(input, 3),
        };
        DecodeOutcome::Decoded(
            Layer::Tls(packet),
            TLS_RECORD_HEADER_LENGTH,
            ParserState::ContinueWithChildren,
        )
    }

    /// The variant tag under which the dispatch engine registers this
    /// decoding unit.
    pub fn variant(&self) -> (r: ParserVariant)
        ensures
            r == ParserVariant::Tls(TlsParser),
    {
        ParserVariant::Tls(TlsParser)
    }
}

} // verus!
