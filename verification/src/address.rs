//! IPv4 addresses as plain octets.

use vstd::prelude::*;

verus! {

/// An IPv4 address: its four octets in network order, `a.b.c.d`.
#[derive(Clone, Copy, Debug, PartialEq, Eq, Hash, Structural)]
pub struct Ipv4Address {
    pub a: u8,
    pub b: u8,
    pub c: u8,
    pub d: u8,
}

impl Ipv4Address {
    /// The octets of the address as a sequence, most significant first.
    pub open spec fn octets_seq(self) -> Seq<u8> {
        seq![self.a, self.b, self.c, self.d]
    }

    /// The address `a.b.c.d`.
    pub fn new(a: u8, b: u8, c: u8, d: u8) -> (addr: Ipv4Address)
        ensures
            addr == (Ipv4Address { a, b, c, d }),
    {
        Ipv4Address { a, b, c, d }
    }

    /// The four octets, most significant first.
    pub fn octets(&self) -> (out: [u8; 4])
        ensures
            out@ == self.octets_seq(),
    {
        let out: [u8; 4] = [self.a, self.b, self.c, self.d];
        out
    }
}

} // verus!
