//! Network Time Protocol related packet processing.

use vstd::prelude::*;

use crate::bytes::be32_at;
use crate::bytes::be64_at;
use crate::bytes::read_be32;
use crate::bytes::read_be64;
use crate::layer::DecodeOutcome;
use crate::layer::DecodeOutcomeView;
use crate::layer::InvalidKind;
use crate::layer::Layer;
use crate::layer::LayerView;
use crate::layer::Needed;
use crate::layer::ParserState;
use crate::layer::ParserVariant;
use crate::layer::prior_view;
use vstd::slice::slice_subrange;
use vstd::slice::slice_to_vec;

verus! {

/// Length in octets of the fixed NTP header.
pub const NTP_HEADER_LENGTH: usize = 48;

/// Length in octets of the optional trailing NTP authenticator.
pub const NTP_AUTHENTICATOR_LENGTH: usize = 20;

/// The NTP decoding unit.
#[derive(Debug, Clone, Copy)]
pub struct NtpParser;

/// Representation of a Network Time Protocol packet.
#[derive(Debug, PartialEq, Eq)]
pub struct NtpPacket {
    /// Leap indicator (2 bit), warning of an impending leap second
    pub li: u8,
    /// NTP version number (3 bit)
    pub version: u8,
    /// Mode (3 bit)
    pub mode: u8,
    /// Stratum level of the local clock
    pub stratum: u8,
    /// The maximum interval between messages in seconds to the nearest
    /// power of two
    pub poll: i8,
    /// Precision of the local clock in seconds to the nearest power of
    /// two
    pub precision: i8,
    /// The total round trip delay to the primary reference source, in
    /// seconds with the fraction point between bits 15 and 16
    pub root_delay: u32,
    /// The maximum error relative to the primary reference source in
    /// seconds with the fraction point between bits 15 and 16
    pub root_dispersion: u32,
    /// Reference clock identifier
    pub ref_id: u32,
    /// The local time at which the local clock was last set or corrected
    pub ts_ref: u64,
    /// The local time when the client sent the request
    pub ts_orig: u64,
    /// The local time when the request was received by the server
    pub ts_recv: u64,
    /// The local time when the reply was sent from the server
    pub ts_xmit: u64,
    /// Authenticator: key identifier and message digest, present only
    /// when at least 20 octets trail the fixed header
    pub auth: Option<(u32, Vec<u8>)>,
}

/// The mathematical value of an `NtpPacket`.
pub struct NtpPacketView {
    /// Leap indicator bits
    pub li: u8,
    /// Version bits
    pub version: u8,
    /// Mode bits
    pub mode: u8,
    /// Stratum field
    pub stratum: u8,
    /// Poll interval field
    pub poll: i8,
    /// Precision field
    pub precision: i8,
    /// Root delay field
    pub root_delay: u32,
    /// Root dispersion field
    pub root_dispersion: u32,
    /// Reference identifier field
    pub ref_id: u32,
    /// Reference timestamp field
    pub ts_ref: u64,
    /// Originate timestamp field
    pub ts_orig: u64,
    /// Receive timestamp field
    pub ts_recv: u64,
    /// Transmit timestamp field
    pub ts_xmit: u64,
    /// Optional authenticator: key identifier and digest octets
    pub auth: Option<(u32, Seq<u8>)>,
}

impl View for NtpPacket {
    type V = NtpPacketView;

    open spec fn view(&self) -> NtpPacketView {
        NtpPacketView {
            li: self.li,
            version: self.version,
            mode: self.mode,
            stratum: self.stratum,
            poll: self.poll,
            precision: self.precision,
            root_delay: self.root_delay,
            root_dispersion: self.root_dispersion,
            ref_id: self.ref_id,
            ts_ref: self.ts_ref,
            ts_orig: self.ts_orig,
            ts_recv: self.ts_recv,
            ts_xmit: self.ts_xmit,
            auth: match self.auth {
                Some((k, d)) => Some((k, d@)),
                None => None,
            },
        }
    }
}

/// Whether the layer stack decoded so far permits an NTP packet next:
/// no stack (standalone mode), or a UDP header as the last decoded
/// layer.
pub open spec fn spec_ntp_parent_ok(prior: Option<Seq<LayerView>>) -> bool {
    match prior {
        None => true,
        Some(stack) => stack.len() > 0 && (stack[stack.len() - 1] matches LayerView::Udp(_)),
    }
}

/// The NTP packet read from `s`: the 48 fixed octets, and the trailing
/// authenticator when `with_auth` asks for it.
pub open spec fn spec_ntp_packet(s: Seq<u8>, with_auth: bool) -> NtpPacketView
    recommends
        s.len() >= 48,
        with_auth ==> s.len() >= 68,
{
    NtpPacketView {
        li: s[0] / 64,
        version: (s[0] / 8) % 8,
        mode: s[0] % 8,
        stratum: s[1],
        poll: s[2] as i8,
        precision: s[3] as i8,
        root_delay: be32_at(s, 4),
        root_dispersion: be32_at(s, 8),
        ref_id: be32_at(s, 12),
        ts_ref: be64_at(s, 16),
        ts_orig: be64_at(s, 24),
        ts_recv: be64_at(s, 32),
        ts_xmit: be64_at(s, 40),
        auth: if with_auth {
            Some((be32_at(s, 48), s.subrange(52, 68)))
        } else {
            None
        },
    }
}

/// The decode outcome that an NTP decoding unit owes for `s` atop the
/// given stack.
///
/// The trailing 20-octet authenticator is present only when at least
/// 20 octets remain after the fixed header; its absence is not an
/// error.  A shorter, non-empty remainder is treated by attempting the
/// fixed-size read, which asks for more data.
pub open spec fn spec_parse_ntp(s: Seq<u8>, prior: Option<Seq<LayerView>>) -> DecodeOutcomeView {
    if !spec_ntp_parent_ok(prior) {
        DecodeOutcomeView::Invalid(InvalidKind::ParentMismatch, 0)
    } else if s.len() < 48 {
        DecodeOutcomeView::NeedMoreData(Needed::Size(48))
    } else if s.len() == 48 {
        DecodeOutcomeView::Decoded(
            LayerView::Ntp(spec_ntp_packet(s, false)),
            48,
            ParserState::Stop,
        )
    } else if s.len() < 68 {
        DecodeOutcomeView::NeedMoreData(Needed::Size(68))
    } else {
        DecodeOutcomeView::Decoded(LayerView::Ntp(spec_ntp_packet(s, true)), 68, ParserState::Stop)
    }
}

/// Truncating a decodable packet below the fixed header length asks
/// for more data, never reports it invalid.
pub proof fn lemma_ntp_truncation(s: Seq<u8>, prior: Option<Seq<LayerView>>)
    requires
        spec_parse_ntp(s, prior) is Decoded,
    ensures
        spec_parse_ntp(s.take(NTP_HEADER_LENGTH - 1), prior) == DecodeOutcomeView::NeedMoreData(
            Needed::Size(NTP_HEADER_LENGTH),
        ),
{
}

/// Parent validation is necessary and order-independent: without a
/// stack the check is skipped and the content is judged on its own;
/// with a stack, an ineligible last element is refused whatever the
/// payload, and an eligible one makes the outcome that of standalone
/// decoding, whatever stands deeper in the stack.
pub proof fn lemma_ntp_parent_validation(s: Seq<u8>, stack: Seq<LayerView>)
    ensures
        !spec_ntp_parent_ok(Some(stack)) ==> spec_parse_ntp(s, Some(stack))
            == DecodeOutcomeView::Invalid(InvalidKind::ParentMismatch, 0),
        spec_ntp_parent_ok(Some(stack)) ==> spec_parse_ntp(s, Some(stack)) == spec_parse_ntp(
            s,
            None,
        ),
{
}

impl NtpParser {
    /// Decodes an `NtpPacket` from the start of `input`, after checking
    /// that the stack decoded so far ends in a UDP header.  A `prior`
    /// of `None` skips the parent check; this is the sanctioned mode
    /// for decoding a packet in isolation.
    pub fn parse(&self, input: &[u8], prior: Option<&Vec<Layer>>) -> (r: DecodeOutcome)
        ensures
            r@ == spec_parse_ntp(input@, prior_view(prior)),
    {
        let parent_ok: bool = match prior {
            None => true,
            Some(stack) => {
                if stack.len() == 0 {
                    false
                } else {
                    match &stack[stack.len() - 1] {
                        Layer::Udp(_) => true,
                        _ => false,
                    }
                }
            },
        };
        if !parent_ok {
            return DecodeOutcome::Invalid(InvalidKind::ParentMismatch, 0);
        }
        let n = input.len();
        if n < NTP_HEADER_LENGTH {
            return DecodeOutcome::NeedMoreData(Needed::Size(NTP_HEADER_LENGTH));
        }
        let with_auth = n > NTP_HEADER_LENGTH;
        if with_auth && n < NTP_HEADER_LENGTH + NTP_AUTHENTICATOR_LENGTH {
            return DecodeOutcome::NeedMoreData(
                Needed::Size(NTP_HEADER_LENGTH + NTP_AUTHENTICATOR_LENGTH),
            );
        }
        let b0 = input[0];
        let packet = NtpPacket {
            li: b0 / 64,
            version: (b0 / 8) % 8,
            mode: b0 % 8,
            stratum: input[1],
            poll: input[2] as i8,
            precision: input[3] as i8,
            root_delay: read_be32(input, 4),
            root_dispersion: read_be32(input, 8),
            ref_id: read_be32(input, 12),
            ts_ref: read_be64(input, 16),
            ts_orig: read_be64(input, 24),
            ts_recv: read_be64(input, 32),
            ts_xmit: read_be64(input, 40),
            auth: if with_auth {
                Some((read_be32(input, 48), slice_to_vec(slice_subrange(input, 52, 68))))
            } else {
                None
            },
        };
        let consumed = if with_auth {
            NTP_HEADER_LENGTH + NTP_AUTHENTICATOR_LENGTH
        } else {
            NTP_HEADER_LENGTH
        };
        DecodeOutcome::Decoded(Layer::Ntp(packet), consumed, ParserState::Stop)
    }

    /// The variant tag under which the dispatch engine registers this
    /// decoding unit.
    pub fn variant(&self) -> (r: ParserVariant)
        ensures
            r == ParserVariant::Ntp(NtpParser),
    {
        ParserVariant::Ntp(NtpParser)
    }
}

} // verus!
