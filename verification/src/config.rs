//! Settings of one trace.

use vstd::prelude::*;
use crate::address::Ipv4Address;

verus! {

/// Probes sent per hop unless the caller says otherwise.
pub const DEFAULT_TRIES_PER_HOP: usize = 5;

/// Seconds a round listens for replies unless the caller says otherwise.
pub const DEFAULT_TIMEOUT: u64 = 1;

/// What a trace is run with. It does not change while the trace runs.
#[derive(Clone, Copy, Debug, PartialEq, Eq, Structural)]
pub struct Config {
    /// The host whose path is traced.
    pub destination: Ipv4Address,
    /// Probes sent in each round.
    pub tries_per_hop: usize,
    /// Seconds each round listens for replies.
    pub timeout: u64,
}

impl Config {
    /// The settings for `destination` with the default probe count and timeout.
    pub fn new(destination: Ipv4Address) -> (config: Config)
        ensures
            config == (Config {
                destination,
                tries_per_hop: DEFAULT_TRIES_PER_HOP,
                timeout: DEFAULT_TIMEOUT,
            }),
    {
        Config { destination, tries_per_hop: DEFAULT_TRIES_PER_HOP, timeout: DEFAULT_TIMEOUT }
    }
}

} // verus!
