use vstd::prelude::*;

use crate::conversion::ToFfi;

verus! {

/// An IPv4 address, held as its four octets in the order in which they are written.
#[derive(Debug, Clone, Copy, PartialEq, Eq, Hash)]
pub struct Ipv4Addr {
    pub octets: [u8; 4],
}

impl Ipv4Addr {
    /// The address `a.b.c.d`.
    pub fn new(a: u8, b: u8, c: u8, d: u8) -> (r: Ipv4Addr)
        ensures
            r.octets@ == seq![a, b, c, d],
    {
        let r = Ipv4Addr { octets: [a, b, c, d] };
        assert(r.octets@ =~= seq![a, b, c, d]);
        r
    }

    /// The address whose octets are `octets`, first octet first.
    pub fn from_octets(octets: [u8; 4]) -> (r: Ipv4Addr)
        ensures
            r.octets == octets,
    {
        Ipv4Addr { octets }
    }

    /// The four octets, first octet first.
    pub fn octets(&self) -> (r: [u8; 4])
        ensures
            r == self.octets,
    {
        self.octets
    }
}

/// An address goes to the kernel in network byte order: its octets in the order in which
/// they are written, whatever the host's byte order.
impl ToFfi<[u8; 4]> for Ipv4Addr {
    open spec fn spec_to_ffi(&self) -> [u8; 4] {
        self.octets
    }

    fn to_ffi(&self) -> (r: [u8; 4]) {
        self.octets
    }
}

} // verus!
