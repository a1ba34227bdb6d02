//! Picks the address to trace among those a host name resolves to.

use vstd::prelude::*;
use crate::address::Ipv4Address;

verus! {

/// One address that a host name resolved to.
#[derive(Clone, Copy, Debug, PartialEq, Eq, Structural)]
pub enum ResolvedAddress {
    /// An IPv4 address.
    V4(Ipv4Address),
    /// An IPv6 address; such a destination cannot be traced.
    V6,
}

/// Whether `chosen` is the last IPv4 address among `addresses`: it stands at
/// some place, and behind that place stand only addresses that are not IPv4.
pub open spec fn is_last_ipv4(addresses: Seq<ResolvedAddress>, chosen: Ipv4Address) -> bool {
    exists|i: int|
        0 <= i < addresses.len() && #[trigger] addresses[i] == ResolvedAddress::V4(chosen)
            && forall|j: int| i < j < addresses.len() ==> #[trigger] addresses[j] is V6
}

/// Picks the destination among the addresses that a name resolved to: the
/// last of the IPv4 addresses, or `None` where there is none.
pub fn select_ipv4(addresses: &Vec<ResolvedAddress>) -> (chosen: Option<Ipv4Address>)
    ensures
        match chosen {
            Some(address) => is_last_ipv4(addresses@, address),
            None => forall|i: int| 0 <= i < addresses@.len() ==> #[trigger] addresses@[i] is V6,
        },
{
    let mut i: usize = addresses.len();
    while i > 0
        invariant
            i <= addresses@.len(),
            forall|j: int| i <= j < addresses@.len() ==> #[trigger] addresses@[j] is V6,
        decreases i,
    {
        i = i - 1;
        match addresses[i] {
            ResolvedAddress::V4(address) => {
                return Some(address);
            },
            ResolvedAddress::V6 => {},
        }
    }
    None
}

} // verus!
