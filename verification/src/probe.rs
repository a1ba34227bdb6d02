//! Probe packets: an IPv4 header that carries an ICMP echo request.

use vstd::prelude::*;
use crate::address::Ipv4Address;
use crate::checksum::{
    checksum, internet_checksum, lemma_checksum_round_trip, verification_sum, with_word,
};
use crate::config::Config;
use crate::sequence::{sequence_for, sequence_number};

verus! {

/// Bytes of the IPv4 header of a probe: no options.
pub const IPV4_HEADER_LEN: usize = 20;

/// Bytes of the ICMP header of an echo request.
pub const ICMP_HEADER_LEN: usize = 8;

/// Bytes of payload that follow the ICMP header of a probe, all zero.
pub const ICMP_PAYLOAD_LEN: usize = 32;

/// Bytes of the ICMP message of a probe.
pub const ICMP_LEN: usize = ICMP_HEADER_LEN + ICMP_PAYLOAD_LEN;

/// Bytes of a whole probe packet.
pub const PROBE_LEN: usize = IPV4_HEADER_LEN + ICMP_LEN;

/// IP version of every probe.
pub const IP_VERSION: u8 = 4;

/// IP protocol number of ICMP.
pub const IP_PROTOCOL_ICMP: u8 = 1;

/// ICMP type of an echo request.
pub const ICMP_ECHO_REQUEST: u8 = 8;

/// The 16-bit word of an ICMP message that holds its checksum.
pub const ICMP_CHECKSUM_WORD: usize = 1;

/// The high byte of a 16-bit value.
pub open spec fn high_byte(value: u16) -> u8 {
    (value / 256) as u8
}

/// The low byte of a 16-bit value.
pub open spec fn low_byte(value: u16) -> u8 {
    (value % 256) as u8
}

/// The IPv4 header of a probe for `dest` with time-to-live `ttl`: version 4,
/// header length in 32-bit words, total length of the probe, protocol ICMP
/// and the destination; identification, flags, header checksum and source
/// are left zero for the sending host to fill in.
pub open spec fn ipv4_header(dest: Ipv4Address, ttl: u8) -> Seq<u8> {
    seq![
        (IP_VERSION * 16 + IPV4_HEADER_LEN / 4) as u8,
        0,
        high_byte(PROBE_LEN as u16),
        low_byte(PROBE_LEN as u16),
        0,
        0,
        0,
        0,
        ttl,
        IP_PROTOCOL_ICMP,
        0,
        0,
        0,
        0,
        0,
        0,
        dest.a,
        dest.b,
        dest.c,
        dest.d,
    ]
}

/// An echo request with sequence number `seq` whose checksum field is still
/// zero: type 8, code 0, identifier 0, then a payload of zeros.
pub open spec fn echo_request_blank(seq: u16) -> Seq<u8> {
    Seq::new(
        ICMP_LEN as nat,
        |i: int|
            if i == 0 {
                ICMP_ECHO_REQUEST
            } else if i == 6 {
                high_byte(seq)
            } else if i == 7 {
                low_byte(seq)
            } else {
                0u8
            },
    )
}

/// The echo request with sequence number `seq`, its checksum filled in.
pub open spec fn echo_request(seq: u16) -> Seq<u8> {
    with_word(
        echo_request_blank(seq),
        ICMP_CHECKSUM_WORD as int,
        internet_checksum(echo_request_blank(seq), ICMP_CHECKSUM_WORD as int),
    )
}

/// The probe packet for `dest` with time-to-live `ttl` and sequence number
/// `seq`.
pub open spec fn probe_packet(dest: Ipv4Address, ttl: u8, seq: u16) -> Seq<u8> {
    ipv4_header(dest, ttl) + echo_request(seq)
}

/// The checksum that the ICMP message `message` carries in its header.
pub open spec fn stored_checksum(message: Seq<u8>) -> int {
    message[2] * 256 + message[3]
}

/// Builds the ICMP echo request with sequence number `seq`.
pub fn create_echo_request(seq: u16) -> (message: Vec<u8>)
    ensures
        message@ == echo_request(seq),
{
    let mut message: Vec<u8> = Vec::new();
    message.push(ICMP_ECHO_REQUEST);
    message.push(0);
    message.push(0);
    message.push(0);
    message.push(0);
    message.push(0);
    message.push((seq / 256) as u8);
    message.push((seq % 256) as u8);
    let mut filled: usize = 0;
    while filled < ICMP_PAYLOAD_LEN
        invariant
            filled <= ICMP_PAYLOAD_LEN,
            message@.len() == ICMP_HEADER_LEN + filled,
            message@ =~= echo_request_blank(seq).take(ICMP_HEADER_LEN + filled),
        decreases ICMP_PAYLOAD_LEN - filled,
    {
        message.push(0);
        filled = filled + 1;
    }
    assert(message@ =~= echo_request_blank(seq));
    let sum = checksum(message.as_slice(), ICMP_CHECKSUM_WORD);
    message.set(2, (sum / 256) as u8);
    message.set(3, (sum % 256) as u8);
    message
}

/// Builds the IPv4 header of a probe for `dest` with time-to-live `ttl`.
pub fn create_ipv4_header(dest: Ipv4Address, ttl: u8) -> (header: Vec<u8>)
    ensures
        header@ == ipv4_header(dest, ttl),
{
    let mut header: Vec<u8> = Vec::new();
    header.push(IP_VERSION * 16 + (IPV4_HEADER_LEN / 4) as u8);
    header.push(0);
    header.push((PROBE_LEN / 256) as u8);
    header.push((PROBE_LEN % 256) as u8);
    header.push(0);
    header.push(0);
    header.push(0);
    header.push(0);
    header.push(ttl);
    header.push(IP_PROTOCOL_ICMP);
    header.push(0);
    header.push(0);
    header.push(0);
    header.push(0);
    header.push(0);
    header.push(0);
    header.push(dest.a);
    header.push(dest.b);
    header.push(dest.c);
    header.push(dest.d);
    header
}

/// Builds the probe packet for `dest` with time-to-live `ttl` and sequence
/// number `sequence_number`: the IPv4 header, then the echo request with its
/// checksum.
pub fn create_icmp_packet(dest: Ipv4Address, ttl: u8, sequence_number: u16) -> (packet: Vec<u8>)
    ensures
        packet@ == probe_packet(dest, ttl, sequence_number),
{
    let mut packet = create_ipv4_header(dest, ttl);
    let mut message = create_echo_request(sequence_number);
    packet.append(&mut message);
    packet
}

/// Builds the probes of round `ttl`, in the order in which they are sent:
/// one packet for each attempt, each with its own sequence number.
pub fn round_probes(config: &Config, ttl: u8) -> (probes: Vec<Vec<u8>>)
    requires
        ttl >= 1,
    ensures
        probes@.len() == config.tries_per_hop,
        forall|i: int|
            0 <= i < probes@.len() ==> (#[trigger] probes@[i])@ == probe_packet(
                config.destination,
                ttl,
                sequence_number(ttl, config.tries_per_hop, i),
            ),
{
    let mut probes: Vec<Vec<u8>> = Vec::new();
    let mut attempt: usize = 0;
    while attempt < config.tries_per_hop
        invariant
            ttl >= 1,
            attempt <= config.tries_per_hop,
            probes@.len() == attempt,
            forall|i: int|
                0 <= i < probes@.len() ==> (#[trigger] probes@[i])@ == probe_packet(
                    config.destination,
                    ttl,
                    sequence_number(ttl, config.tries_per_hop, i),
                ),
        decreases config.tries_per_hop - attempt,
    {
        let seq = sequence_for(ttl, config.tries_per_hop, attempt);
        let packet = create_icmp_packet(config.destination, ttl, seq);
        probes.push(packet);
        attempt = attempt + 1;
    }
    probes
}

/// The ICMP message of every probe verifies: the checksum over the whole
/// message is zero, and the checksum over the message with its checksum field
/// set to zero is what the field holds.
pub proof fn lemma_probe_checksum_round_trip(dest: Ipv4Address, ttl: u8, seq: u16)
    ensures
        probe_packet(dest, ttl, seq).len() == PROBE_LEN,
        verification_sum(
            probe_packet(dest, ttl, seq).subrange(IPV4_HEADER_LEN as int, PROBE_LEN as int),
        ) == 0,
        verification_sum(
            with_word(
                probe_packet(dest, ttl, seq).subrange(IPV4_HEADER_LEN as int, PROBE_LEN as int),
                ICMP_CHECKSUM_WORD as int,
                0,
            ),
        ) == stored_checksum(
            probe_packet(dest, ttl, seq).subrange(IPV4_HEADER_LEN as int, PROBE_LEN as int),
        ),
{
    let packet = probe_packet(dest, ttl, seq);
    let message = packet.subrange(IPV4_HEADER_LEN as int, PROBE_LEN as int);
    assert(message =~= echo_request(seq));
    lemma_checksum_round_trip(echo_request_blank(seq), ICMP_CHECKSUM_WORD as int);
}

} // verus!
