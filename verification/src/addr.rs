//! Network address value types shared by the codecs.

use vstd::prelude::*;

verus! {

/// An Internet Protocol version 4 address, one field per octet in
/// network order.
#[derive(Debug, Clone, Copy, Default, PartialEq, Eq, Hash, Structural)]
pub struct Ipv4Address(pub u8, pub u8, pub u8, pub u8);

impl Ipv4Address {
    /// Builds an address from its four dotted-quad octets.
    pub fn new(a: u8, b: u8, c: u8, d: u8) -> (r: Ipv4Address)
        ensures
            r == Ipv4Address(a, b, c, d),
    {
        Ipv4Address(a, b, c, d)
    }
}

/// An Internet Protocol version 6 address, one field per 16-bit group in
/// network order.
#[derive(Debug, Clone, Copy, Default, PartialEq, Eq, Hash, Structural)]
pub struct Ipv6Address(
    pub u16,
    pub u16,
    pub u16,
    pub u16,
    pub u16,
    pub u16,
    pub u16,
    pub u16,
);

impl Ipv6Address {
    /// Builds an address from its eight colon-separated 16-bit groups.
    pub fn new(a: u16, b: u16, c: u16, d: u16, e: u16, f: u16, g: u16, h: u16) -> (r: Ipv6Address)
        ensures
            r == Ipv6Address(a, b, c, d, e, f, g, h),
    {
        Ipv6Address(a, b, c, d, e, f, g, h)
    }
}

/// The IPv4 address whose four octets start at offset `i` of `s`.
pub open spec fn ipv4_at(s: Seq<u8>, i: int) -> Ipv4Address
    recommends
        0 <= i,
        i + 4 <= s.len(),
{
    Ipv4Address(s[i], s[i + 1], s[i + 2], s[i + 3])
}

/// The IPv6 address whose eight big-endian 16-bit groups start at
/// offset `i` of `s`.
pub open spec fn ipv6_at(s: Seq<u8>, i: int) -> Ipv6Address
    recommends
        0 <= i,
        i + 16 <= s.len(),
{
    Ipv6Address(
        crate::bytes::be16_at(s, i),
        crate::bytes::be16_at(s, i + 2),
        crate::bytes::be16_at(s, i + 4),
        crate::bytes::be16_at(s, i + 6),
        crate::bytes::be16_at(s, i + 8),
        crate::bytes::be16_at(s, i + 10),
        crate::bytes::be16_at(s, i + 12),
        crate::bytes::be16_at(s, i + 14),
    )
}

/// Either kind of Internet Protocol address, as used in a flow
/// identifier.
#[derive(Debug, Clone, Copy, PartialEq, Eq, Hash, Structural)]
pub enum IpAddress {
    /// A version 4 address.
    V4(Ipv4Address),
    /// A version 6 address.
    V6(Ipv6Address),
}

} // verus!
