//! Hop discovery by ICMP echo probes with increasing time-to-live: probe
//! packets, sequence numbers, reply decoding, per-round aggregation and the
//! state machine that drives a sweep.

pub mod address;
pub mod checksum;
pub mod config;
pub mod dns;
pub mod location;
pub mod probe;
pub mod reply;
pub mod report;
pub mod round;
pub mod sequence;
pub mod traceroute;
