//! Transport layer codecs and the flow hook.
//!
//! After a transport header is extracted, the codec builds a flow
//! identifier from the nearest Internet layer in the stack decoded so
//! far and forwards it to the external tracker.  The tracker's outcome
//! is embedded into the transport record and never aborts a decode.

pub mod tcp;
pub mod tls;
pub mod udp;

use vstd::prelude::*;

use crate::addr::IpAddress;
use crate::layer::Layer;
use crate::layer::LayerView;
use crate::layer::prior_view;
use crate::track::FlowTracker;
use crate::track::Identifier;
use crate::track::TrackError;

verus! {

/// The flow identifier derived from a layer stack and the transport
/// ports: the nearest IPv4 or IPv6 layer, scanned from the innermost
/// end of the stack, contributes the addresses and the declared
/// transport protocol.  A stack without an Internet layer yields no
/// identifier.
pub open spec fn spec_nearest_ip_identifier(
    stack: Seq<LayerView>,
    src_port: u16,
    dst_port: u16,
) -> Option<Identifier>
    decreases stack.len(),
{
    if stack.len() == 0 {
        None
    } else {
        match stack[stack.len() - 1] {
            LayerView::Ipv4(p) => Some(
                Identifier {
                    source_address: IpAddress::V4(p.src),
                    source_port: src_port,
                    destination_address: IpAddress::V4(p.dst),
                    destination_port: dst_port,
                    protocol: p.protocol,
                },
            ),
            LayerView::Ipv6(p) => Some(
                Identifier {
                    source_address: IpAddress::V6(p.src),
                    source_port: src_port,
                    destination_address: IpAddress::V6(p.dst),
                    destination_port: dst_port,
                    protocol: p.next_header,
                },
            ),
            _ => spec_nearest_ip_identifier(stack.drop_last(), src_port, dst_port),
        }
    }
}

/// The identifier the flow hook derives, or `None` in standalone mode
/// or when no Internet layer has been decoded.
pub open spec fn spec_flow_identifier(
    prior: Option<Seq<LayerView>>,
    src_port: u16,
    dst_port: u16,
) -> Option<Identifier> {
    match prior {
        None => None,
        Some(stack) => spec_nearest_ip_identifier(stack, src_port, dst_port),
    }
}

/// Derives the flow identifier for the current decode, scanning the
/// stack from its innermost end for the nearest Internet layer.
pub fn flow_identifier(prior: Option<&Vec<Layer>>, src_port: u16, dst_port: u16) -> (r: Option<
    Identifier,
>)
    ensures
        r == spec_flow_identifier(prior_view(prior), src_port, dst_port),
{
    let stack = match prior {
        None => {
            return None;
        },
        Some(stack) => stack,
    };
    let ghost sv = stack@.map_values(|l: Layer| l@);
    assert(prior_view(prior) == Some(sv));
    let mut i = stack.len();
    assert(sv.take(i as int) =~= sv);
    while i > 0
        invariant
            i <= stack.len(),
            prior_view(prior) == Some(sv),
            sv == stack@.map_values(|l: Layer| l@),
            spec_nearest_ip_identifier(sv, src_port, dst_port) == spec_nearest_ip_identifier(
                sv.take(i as int),
                src_port,
                dst_port,
            ),
        decreases i,
    {
        i = i - 1;
        proof {
            assert(sv.take(i + 1)[i as int] == sv[i as int]);
            assert(sv[i as int] == stack@[i as int]@);
        }
        match &stack[i] {
            Layer::Ipv4(p) => {
                return Some(
                    Identifier {
                        source_address: IpAddress::V4(p.src),
                        source_port: src_port,
                        destination_address: IpAddress::V4(p.dst),
                        destination_port: dst_port,
                        protocol: p.protocol,
                    },
                );
            },
            Layer::Ipv6(p) => {
                return Some(
                    Identifier {
                        source_address: IpAddress::V6(p.src),
                        source_port: src_port,
                        destination_address: IpAddress::V6(p.dst),
                        destination_port: dst_port,
                        protocol: p.next_header,
                    },
                );
            },
            _ => {
                proof {
                    assert(sv.take(i + 1).drop_last() =~= sv.take(i as int));
                }
            },
        }
    }
    None
}

/// Track a connection based on the current parsing result and the
/// transport ports.
///
/// The nearest Internet layer of `prior` and the two ports form the
/// flow identifier, which is handed to the tracker once.  Without an
/// identifier — standalone mode, or a stack with no Internet layer —
/// the tracker is not consulted and the hook succeeds.  The tracker's
/// verdict is returned as is; it is an annotation, never a reason to
/// abort the decode.
pub fn track_connection<T: FlowTracker>(
    tracker: &mut T,
    prior: Option<&Vec<Layer>>,
    src_port: u16,
    dst_port: u16,
) -> (r: Result<(), TrackError>)
    ensures
        spec_flow_identifier(prior_view(prior), src_port, dst_port) is None ==> r is Ok,
{
    match flow_identifier(prior, src_port, dst_port) {
        Some(identifier) => match tracker.track(&identifier) {
            Ok(_) => Ok(()),
            Err(e) => Err(e),
        },
        None => Ok(()),
    }
}

} // verus!
