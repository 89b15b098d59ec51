//! The interface to the external flow-tracking collaborator.
//!
//! Transport codecs surface per-flow identity through this interface:
//! they build an [`Identifier`] from the surrounding IP layer and the
//! transport ports and hand it to a [`FlowTracker`].  The tracker itself
//! is an external collaborator; this crate only fixes the boundary and
//! embeds the tracker's outcome into the decoded transport record.

use vstd::prelude::*;

use crate::addr::IpAddress;
use crate::layer2::ipv4::IpProtocol;

verus! {

/// The typed error code with which a flow tracker can refuse a flow.
#[derive(Debug, Clone, Copy, PartialEq, Eq, Structural)]
pub enum TrackError {
    /// The tracker rejected the flow.
    Rejected,
    /// The tracker had no free slot for a new flow.
    TableFull,
}

/// A flow key: addresses and ports of both endpoints plus the transport
/// protocol.  Two identifiers naming the same flow in opposite
/// directions are distinct values; direction normalization, if any, is
/// the tracker's concern.
#[derive(Debug, Clone, Copy, PartialEq, Eq, Hash, Structural)]
pub struct Identifier {
    /// Address of the sending endpoint.
    pub source_address: IpAddress,
    /// Port of the sending endpoint.
    pub source_port: u16,
    /// Address of the receiving endpoint.
    pub destination_address: IpAddress,
    /// Port of the receiving endpoint.
    pub destination_port: u16,
    /// The transport protocol of the flow.
    pub protocol: IpProtocol,
}

impl Identifier {
    /// Builds the flow key for one direction of a connection.
    pub fn new(
        source_address: IpAddress,
        source_port: u16,
        destination_address: IpAddress,
        destination_port: u16,
        protocol: IpProtocol,
    ) -> (r: Identifier)
        ensures
            r == (Identifier {
                source_address,
                source_port,
                destination_address,
                destination_port,
                protocol,
            }),
    {
        Identifier { source_address, source_port, destination_address, destination_port, protocol }
    }
}

/// The capability under which transport codecs register flows.
///
/// The tracker is shared, mutable state owned outside this crate; no
/// contract is placed on `track`, so every decoding contract in this
/// crate holds for every possible tracker outcome.
pub trait FlowTracker {
    /// The per-flow state the tracker hands back when it accepts a
    /// flow; this crate never inspects it.
    type Handle;

    /// Registers one direction of a flow; an error code means the flow
    /// was not recorded.
    fn track(&mut self, identifier: &Identifier) -> Result<Self::Handle, TrackError>;
}

/// A tracker that accepts every flow and records nothing, for decoding
/// without connection bookkeeping.
#[derive(Debug, Clone, Copy, Default)]
pub struct NoTracker;

impl FlowTracker for NoTracker {
    type Handle = ();

    fn track(&mut self, _identifier: &Identifier) -> Result<(), TrackError> {
        Ok(())
    }
}

} // verus!
