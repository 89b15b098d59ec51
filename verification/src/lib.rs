//! Packet decoding for the Internet Protocol Suite.
//!
//! The crate decodes raw octet streams into a typed stack of protocol
//! layers, one layer per encapsulation level.  Each protocol has its own
//! decoding unit that first validates the layer stack decoded so far and
//! then extracts the wire fields bit-exactly.  A small dispatch engine
//! walks the fixed encapsulation graph and accumulates the layer stack.

use vstd::prelude::*;

pub mod addr;
pub mod bytes;
pub mod layer;
pub mod layer1;
pub mod layer2;
pub mod layer3;
pub mod layer4;
pub mod memcmp;
pub mod track;

use crate::layer::prior_view;
use crate::layer::spec_follows;
use crate::layer::DecodeOutcome;
use crate::layer::DecodeOutcomeView;
use crate::layer::Layer;
use crate::layer::LayerView;
use crate::layer::ParserState;
use crate::layer::ParserVariant;
use crate::layer1::arp::spec_parse_arp;
use crate::layer1::arp::ArpParser;
use crate::layer1::ethernet::spec_parse_ethernet;
use crate::layer1::ethernet::EthernetParser;
use crate::layer2::icmp::spec_parse_icmp;
use crate::layer2::icmp::IcmpParser;
use crate::layer2::icmpv6::spec_parse_icmpv6;
use crate::layer2::icmpv6::Icmpv6Parser;
use crate::layer2::ipv4::spec_parse_ipv4;
use crate::layer2::ipv4::Ipv4Parser;
use crate::layer2::ipv6::spec_parse_ipv6;
use crate::layer2::ipv6::Ipv6Parser;
use crate::layer3::tcp::spec_parse_tcp;
use crate::layer3::tcp::TcpParser;
use crate::layer3::tls::spec_parse_tls;
use crate::layer3::tls::TlsParser;
use crate::layer3::udp::spec_parse_udp;
use crate::layer3::udp::UdpParser;
use crate::layer4::http::spec_parse_http;
use crate::layer4::http::HttpParser;
use crate::layer4::ntp::spec_parse_ntp;
use crate::layer4::ntp::NtpParser;
use crate::track::FlowTracker;
use vstd::slice::slice_subrange;

verus! {

/// Whether a decoding unit, given this input and prior stack, reports
/// a decoded layer rather than a refusal or a request for more data.
/// For the transport units this does not depend on the tracker's
/// verdict, which only annotates a decoded layer.
pub open spec fn spec_unit_would_decode(
    v: ParserVariant,
    s: Seq<u8>,
    prior: Option<Seq<LayerView>>,
) -> bool {
    match v {
        ParserVariant::Ethernet(_) => spec_parse_ethernet(s) is Decoded,
        ParserVariant::Arp(_) => spec_parse_arp(s, prior) is Decoded,
        ParserVariant::Ipv4(_) => spec_parse_ipv4(s, prior) is Decoded,
        ParserVariant::Ipv6(_) => spec_parse_ipv6(s, prior) is Decoded,
        ParserVariant::Icmp(_) => spec_parse_icmp(s, prior) is Decoded,
        ParserVariant::Icmpv6(_) => spec_parse_icmpv6(s, prior) is Decoded,
        ParserVariant::Tcp(_) => spec_parse_tcp(s, prior, None) is Decoded,
        ParserVariant::Udp(_) => spec_parse_udp(s, prior, None) is Decoded,
        ParserVariant::Tls(_) => spec_parse_tls(s, prior) is Decoded,
        ParserVariant::Http(_) => spec_parse_http(s, prior) is Decoded,
        ParserVariant::Ntp(_) => spec_parse_ntp(s, prior) is Decoded,
    }
}

/// Whether a decoded outcome respects the stack it was decoded atop:
/// when a layer was produced over a non-empty prior stack, the stack's
/// last element is a structurally valid parent for it.
pub open spec fn spec_decoded_follows(
    prior: Option<Seq<LayerView>>,
    o: DecodeOutcomeView,
) -> bool {
    match (prior, o) {
        (Some(sv), DecodeOutcomeView::Decoded(l, _, _)) => sv.len() > 0 ==> spec_follows(
            sv[sv.len() - 1],
            l,
        ),
        _ => true,
    }
}

/// Dispatches one decode call to the unit that `v` names.
fn decode_unit<T: FlowTracker>(
    v: &ParserVariant,
    input: &[u8],
    prior: Option<&Vec<Layer>>,
    tracker: &mut T,
) -> (r: DecodeOutcome)
    ensures
        (r@ is Decoded) == spec_unit_would_decode(*v, input@, prior_view(prior)),
        r matches DecodeOutcome::Decoded(_, c, st) ==> c <= input@.len() && (c == 0 ==> st
            == ParserState::Stop),
        !(*v matches ParserVariant::Ethernet(_)) ==> spec_decoded_follows(
            prior_view(prior),
            r@,
        ),
{
    match v {
        ParserVariant::Ethernet(p) => p.parse(input, prior),
        ParserVariant::Arp(p) => p.parse(input, prior),
        ParserVariant::Ipv4(p) => p.parse(input, prior),
        ParserVariant::Ipv6(p) => p.parse(input, prior),
        ParserVariant::Icmp(p) => p.parse(input, prior),
        ParserVariant::Icmpv6(p) => p.parse(input, prior),
        ParserVariant::Tcp(p) => p.parse(input, prior, tracker),
        ParserVariant::Udp(p) => p.parse(input, prior, tracker),
        ParserVariant::Tls(p) => p.parse(input, prior),
        ParserVariant::Http(p) => p.parse(input, prior),
        ParserVariant::Ntp(p) => p.parse(input, prior),
    }
}

/// The error with which a traversal reports that nothing could be
/// decoded.
#[derive(Debug, Clone, Copy, PartialEq, Eq, Structural)]
pub enum TraverseError {
    /// The decoding unit at the traversal root refused the input, so
    /// no layer was decoded.
    NoParserSucceeded,
}

/// The decoding units of the fixed TCP/IP topology, in registration
/// order.
pub open spec fn spec_topology_parsers() -> Seq<ParserVariant> {
    seq![
        ParserVariant::Ethernet(EthernetParser),
        ParserVariant::Arp(ArpParser),
        ParserVariant::Ipv4(Ipv4Parser),
        ParserVariant::Ipv6(Ipv6Parser),
        ParserVariant::Icmp(IcmpParser),
        ParserVariant::Icmpv6(Icmpv6Parser),
        ParserVariant::Tcp(TcpParser),
        ParserVariant::Udp(UdpParser),
        ParserVariant::Tls(TlsParser),
        ParserVariant::Http(HttpParser),
        ParserVariant::Ntp(NtpParser),
    ]
}

/// The candidate children of each decoding unit of the fixed TCP/IP
/// topology, as handles into the unit sequence, in registration order.
/// Self-loops express self-encapsulation: IPv4 in IPv4 and IPv6 in
/// IPv6.
pub open spec fn spec_topology_children() -> Seq<Seq<usize>> {
    seq![
        seq![1usize, 2usize, 3usize],
        seq![],
        seq![2usize, 3usize, 4usize, 6usize, 7usize],
        seq![3usize, 5usize, 6usize, 7usize],
        seq![],
        seq![],
        seq![8usize, 9usize],
        seq![10usize],
        seq![9usize],
        seq![],
        seq![],
    ]
}

/// Peel for TCP/IP packets: the dispatch graph of decoding units and
/// the traversal that walks it.
pub struct PeelIp {
    /// The decoding units, indexed by small handles.
    pub parsers: Vec<ParserVariant>,
    /// For each unit, the handles of its candidate children in
    /// registration order.
    pub children: Vec<Vec<usize>>,
    /// The handle of the unit at which every traversal starts.
    pub root: usize,
}

impl PeelIp {
    /// Well-formedness of the dispatch graph: the adjacency table
    /// covers every unit, every child handle resolves, and the
    /// Ethernet unit, being the root of the encapsulation hierarchy,
    /// follows no other unit.
    pub open spec fn wf(self) -> bool {
        &&& self.parsers@.len() == self.children@.len()
        &&& (self.root as int) < self.parsers@.len()
        &&& forall|i: int, j: int|
            0 <= i < self.children@.len() && 0 <= j < self.children@[i]@.len()
                ==> (#[trigger] self.children@[i]@[j] as int) < self.parsers@.len() && !(
            self.parsers@[self.children@[i]@[j] as int] matches ParserVariant::Ethernet(_))
    }

    /// Builds the dispatch graph for TCP/IP based packet decoding: one
    /// unit per protocol, wired along the encapsulation rules, with
    /// Ethernet as the root.
    pub fn new() -> (r: PeelIp)
        ensures
            r.wf(),
            r.parsers@ == spec_topology_parsers(),
            r.children@.map_values(|c: Vec<usize>| c@) == spec_topology_children(),
            r.root == 0,
    {
        let mut parsers: Vec<ParserVariant> = Vec::new();
        parsers.push(ParserVariant::Ethernet(EthernetParser));
        parsers.push(ParserVariant::Arp(ArpParser));
        parsers.push(ParserVariant::Ipv4(Ipv4Parser));
        parsers.push(ParserVariant::Ipv6(Ipv6Parser));
        parsers.push(ParserVariant::Icmp(IcmpParser));
        parsers.push(ParserVariant::Icmpv6(Icmpv6Parser));
        parsers.push(ParserVariant::Tcp(TcpParser));
        parsers.push(ParserVariant::Udp(UdpParser));
        parsers.push(ParserVariant::Tls(TlsParser));
        parsers.push(ParserVariant::Http(HttpParser));
        parsers.push(ParserVariant::Ntp(NtpParser));
        let mut children: Vec<Vec<usize>> = Vec::new();
        children.push(vec![1, 2, 3]);
        children.push(Vec::new());
        children.push(vec![2, 3, 4, 6, 7]);
        children.push(vec![3, 5, 6, 7]);
        children.push(Vec::new());
        children.push(Vec::new());
        children.push(vec![8, 9]);
        children.push(vec![10]);
        children.push(vec![9]);
        children.push(Vec::new());
        children.push(Vec::new());
        let r = PeelIp { parsers, children, root: 0 };
        proof {
            assert(r.parsers@ =~= spec_topology_parsers());
            assert(r.children@.map_values(|c: Vec<usize>| c@) =~~= spec_topology_children());
        }
        r
    }

    /// A rank that orders the continuation directives for termination:
    /// a terminal directive is about to end the traversal.
    pub open spec fn spec_state_rank(state: ParserState) -> int {
        if state is Stop {
            0
        } else {
            1
        }
    }

    /// Tries the candidate children of the unit `current` against the
    /// remaining input, in registration order, and reports the first
    /// that decodes: its handle, its layer, the octets it consumed and
    /// its continuation directive.
    fn next_child<T: FlowTracker>(
        &self,
        input: &[u8],
        offset: usize,
        stack: &Vec<Layer>,
        tracker: &mut T,
        current: usize,
    ) -> (r: Option<(usize, Layer, usize, ParserState)>)
        requires
            self.wf(),
            (current as int) < self.children@.len(),
            offset <= input@.len(),
            stack@.len() > 0,
        ensures
            r matches Some((child, layer, consumed, state)) ==> (child as int)
                < self.parsers@.len() && offset + consumed <= input@.len() && spec_follows(
                stack@[stack@.len() - 1]@,
                layer@,
            ) && (consumed == 0 ==> state == ParserState::Stop),
    {
        let n = input.len();
        let remaining = slice_subrange(input, offset, n);
        let kids = &self.children[current];
        let mut ki: usize = 0;
        while ki < kids.len()
            invariant
                self.wf(),
                (current as int) < self.children@.len(),
                kids@ == self.children@[current as int]@,
                offset <= n,
                n == input@.len(),
                remaining@ == input@.subrange(offset as int, n as int),
                stack@.len() > 0,
            decreases kids@.len() - ki,
        {
            let child = kids[ki];
            let outcome = decode_unit(&self.parsers[child], remaining, Some(stack), tracker);
            match outcome {
                DecodeOutcome::Decoded(layer, consumed, state) => {
                    return Some((child, layer, consumed, state));
                },
                _ => {},
            }
            ki = ki + 1;
        }
        None
    }

    /// Traverse the dispatch graph: decode the unit at the root, push
    /// its layer onto `result`, and repeatedly decode the first
    /// eligible child of the current unit against the remaining
    /// octets, until a terminal layer is reached or no child accepts
    /// the input.
    ///
    /// On success the returned stack extends `result` by at least one
    /// layer, and every pair of layers it appended in sequence stands
    /// in the structural parent relation — the invariant of a result
    /// stack.  The traversal fails exactly when the root unit itself
    /// decodes nothing.
    pub fn traverse<T: FlowTracker>(&self, input: &[u8], result: Vec<Layer>, tracker: &mut T) -> (r:
        Result<Vec<Layer>, TraverseError>)
        requires
            self.wf(),
        ensures
            match r {
                Ok(stack) => {
                    &&& stack@.len() > result@.len()
                    &&& stack@.take(result@.len() as int) == result@
                    &&& forall|i: int|
                        result@.len() <= i < stack@.len() - 1 ==> spec_follows(
                            #[trigger] stack@[i]@,
                            stack@[i + 1]@,
                        )
                    &&& spec_unit_would_decode(
                        self.parsers@[self.root as int],
                        input@,
                        Some(result@.map_values(|l: Layer| l@)),
                    )
                },
                Err(_) => !spec_unit_would_decode(
                    self.parsers@[self.root as int],
                    input@,
                    Some(result@.map_values(|l: Layer| l@)),
                ),
            },
    {
        let n = input.len();
        let ghost result_snap = result@;
        let mut stack = result;
        let root_outcome = decode_unit(&self.parsers[self.root], input, Some(&stack), tracker);
        let (layer0, consumed0, state0) = match root_outcome {
            DecodeOutcome::Decoded(layer, consumed, state) => (layer, consumed, state),
            _ => {
                return Err(TraverseError::NoParserSucceeded);
            },
        };
        stack.push(layer0);
        let mut current = self.root;
        let mut offset = consumed0;
        let mut state = state0;
        loop
            invariant
                self.wf(),
                (current as int) < self.parsers@.len(),
                offset <= n,
                n == input@.len(),
                stack@.len() > result_snap.len(),
                stack@.take(result_snap.len() as int) == result_snap,
                forall|i: int|
                    result_snap.len() <= i < stack@.len() - 1 ==> spec_follows(
                        #[trigger] stack@[i]@,
                        stack@[i + 1]@,
                    ),
                spec_unit_would_decode(
                    self.parsers@[self.root as int],
                    input@,
                    Some(result_snap.map_values(|l: Layer| l@)),
                ),
            decreases n - offset, Self::spec_state_rank(state),
        {
            match state {
                ParserState::Stop => {
                    break ;
                },
                _ => {},
            }
            let found = self.next_child(input, offset, &stack, tracker, current);
            match found {
                None => {
                    break ;
                },
                Some((child, layer, consumed, child_state)) => {
                    let ghost stack_old = stack@;
                    stack.push(layer);
                    proof {
                        assert(stack@.take(result_snap.len() as int) =~= stack_old.take(
                            result_snap.len() as int,
                        ));
                        assert(forall|i: int|
                            result_snap.len() <= i < stack@.len() - 1 ==> spec_follows(
                                #[trigger] stack@[i]@,
                                stack@[i + 1]@,
                            ));
                    }
                    current = child;
                    offset = offset + consumed;
                    state = child_state;
                },
            }
        }
        Ok(stack)
    }
}

} // verus!
