//! Replies: what a received datagram says, and which probe it answers.

use vstd::prelude::*;
use crate::address::Ipv4Address;
use crate::probe::{high_byte, low_byte, probe_packet, ICMP_HEADER_LEN, IPV4_HEADER_LEN, IP_VERSION};

verus! {

/// ICMP type of an echo reply.
pub const ICMP_ECHO_REPLY: u8 = 0;

/// ICMP type of a time-exceeded message.
pub const ICMP_TIME_EXCEEDED: u8 = 11;

/// Bytes of an ICMP message that every type shares: type, code and checksum.
pub const ICMP_COMMON_LEN: usize = 4;

/// Where, counted from the start of a time-exceeded message, the header of
/// the echo request that it answers begins: after the message's own header
/// and the IPv4 header of the returned datagram.
pub const EMBEDDED_REQUEST_OFFSET: usize = ICMP_HEADER_LEN + IPV4_HEADER_LEN;

/// Where in an echo header the sequence number stands.
pub const SEQUENCE_OFFSET: usize = 6;

/// The kind of ICMP message a reply carries.
#[derive(Clone, Copy, Debug, PartialEq, Eq, Structural)]
pub enum ReplyType {
    /// The destination answered a probe.
    EchoReply,
    /// A router on the path dropped a probe whose time-to-live ran out.
    TimeExceeded,
    /// Any other message; it is not interpreted.
    Other,
}

/// One received reply.
#[derive(Clone, Copy, Debug, PartialEq, Eq, Structural)]
pub struct TraceHop {
    /// The host that sent the reply.
    pub hop_addr: Ipv4Address,
    /// Nanoseconds from the start of the round to the reply's arrival.
    pub reply_time: u64,
    /// The kind of message.
    pub reply_type: ReplyType,
    /// The sequence number of the probe that the reply echoes; zero for a
    /// message that is not interpreted.
    pub sequence_number: u16,
}

/// What a reply means to the sweep.
#[derive(Clone, Copy, Debug, PartialEq, Eq, Structural)]
pub enum ReplyClass {
    /// A router dropped the probe with this sequence number.
    Exceeded(u16),
    /// The destination answered the probe with this sequence number.
    EchoReply(u16),
    /// Nothing this system interprets.
    Ignored,
}

/// Why a datagram could not be decoded.
#[derive(Clone, Copy, Debug, PartialEq, Eq, Structural)]
pub enum DecodeError {
    /// The datagram ends before a field that has to be read.
    Truncated,
    /// The datagram is not IPv4, or its header length is below the minimum.
    Malformed,
}

/// The 16-bit big-endian value at `at` in `bytes`.
pub open spec fn be16(bytes: Seq<u8>, at: int) -> u16 {
    (bytes[at] * 256 + bytes[at + 1]) as u16
}

/// The IP version that the first byte of a datagram names.
pub open spec fn ip_version(packet: Seq<u8>) -> int {
    packet[0] as int / 16
}

/// The length of a datagram's IPv4 header in bytes, as its first byte gives
/// it: where the ICMP message begins.
pub open spec fn ip_header_len(packet: Seq<u8>) -> int {
    (packet[0] as int % 16) * 4
}

/// What decoding the datagram `packet`, received from `host` at `reply_time`,
/// gives.
pub open spec fn decoded(packet: Seq<u8>, host: Ipv4Address, reply_time: u64) -> Result<
    TraceHop,
    DecodeError,
> {
    let start = ip_header_len(packet);
    if packet.len() < IPV4_HEADER_LEN {
        Err(DecodeError::Truncated)
    } else if ip_version(packet) != IP_VERSION || start < IPV4_HEADER_LEN {
        Err(DecodeError::Malformed)
    } else if packet.len() < start + ICMP_COMMON_LEN {
        Err(DecodeError::Truncated)
    } else if packet[start] == ICMP_ECHO_REPLY {
        if packet.len() < start + ICMP_HEADER_LEN {
            Err(DecodeError::Truncated)
        } else {
            Ok(
                TraceHop {
                    hop_addr: host,
                    reply_time,
                    reply_type: ReplyType::EchoReply,
                    sequence_number: be16(packet, start + SEQUENCE_OFFSET),
                },
            )
        }
    } else if packet[start] == ICMP_TIME_EXCEEDED {
        if packet.len() < start + EMBEDDED_REQUEST_OFFSET + ICMP_HEADER_LEN {
            Err(DecodeError::Truncated)
        } else {
            Ok(
                TraceHop {
                    hop_addr: host,
                    reply_time,
                    reply_type: ReplyType::TimeExceeded,
                    sequence_number: be16(
                        packet,
                        start + EMBEDDED_REQUEST_OFFSET + SEQUENCE_OFFSET,
                    ),
                },
            )
        }
    } else {
        Ok(
            TraceHop {
                hop_addr: host,
                reply_time,
                reply_type: ReplyType::Other,
                sequence_number: 0,
            },
        )
    }
}

/// What the reply `hop` means to the sweep.
pub open spec fn class_of(hop: TraceHop) -> ReplyClass {
    match hop.reply_type {
        ReplyType::TimeExceeded => ReplyClass::Exceeded(hop.sequence_number),
        ReplyType::EchoReply => ReplyClass::EchoReply(hop.sequence_number),
        ReplyType::Other => ReplyClass::Ignored,
    }
}

/// The reply that a round keeps of the datagram `packet`: the decoded reply,
/// unless decoding fails or the message is not interpreted.
pub open spec fn processed(packet: Seq<u8>, host: Ipv4Address, reply_time: u64) -> Option<
    TraceHop,
> {
    match decoded(packet, host, reply_time) {
        Ok(hop) => if class_of(hop) == ReplyClass::Ignored {
            None
        } else {
            Some(hop)
        },
        Err(_) => None,
    }
}

/// Reads the 16-bit big-endian value at `at`.
fn read_be16(bytes: &[u8], at: usize) -> (value: u16)
    requires
        at + 1 < bytes@.len(),
    ensures
        value == be16(bytes@, at as int),
{
    (bytes[at] as u16) * 256 + (bytes[at + 1] as u16)
}

/// Decodes the datagram `packet`, received from `host` at `reply_time`: finds
/// the ICMP message behind the IPv4 header, reads its type, and for an echo
/// reply or a time-exceeded message the sequence number of the probe it
/// answers. A datagram that is too short or is not IPv4 is an error.
pub fn decode_reply(packet: &[u8], host: Ipv4Address, reply_time: u64) -> (result: Result<
    TraceHop,
    DecodeError,
>)
    ensures
        result == decoded(packet@, host, reply_time),
{
    if packet.len() < IPV4_HEADER_LEN {
        return Err(DecodeError::Truncated);
    }
    let first = packet[0];
    let start: usize = ((first % 16) as usize) * 4;
    if first / 16 != IP_VERSION || start < IPV4_HEADER_LEN {
        return Err(DecodeError::Malformed);
    }
    if packet.len() < start + ICMP_COMMON_LEN {
        return Err(DecodeError::Truncated);
    }
    let kind = packet[start];
    if kind == ICMP_ECHO_REPLY {
        if packet.len() < start + ICMP_HEADER_LEN {
            return Err(DecodeError::Truncated);
        }
        let sequence_number = read_be16(packet, start + SEQUENCE_OFFSET);
        Ok(
            TraceHop {
                hop_addr: host,
                reply_time,
                reply_type: ReplyType::EchoReply,
                sequence_number,
            },
        )
    } else if kind == ICMP_TIME_EXCEEDED {
        if packet.len() < start + EMBEDDED_REQUEST_OFFSET + ICMP_HEADER_LEN {
            return Err(DecodeError::Truncated);
        }
        let sequence_number = read_be16(packet, start + EMBEDDED_REQUEST_OFFSET + SEQUENCE_OFFSET);
        Ok(
            TraceHop {
                hop_addr: host,
                reply_time,
                reply_type: ReplyType::TimeExceeded,
                sequence_number,
            },
        )
    } else {
        Ok(
            TraceHop {
                hop_addr: host,
                reply_time,
                reply_type: ReplyType::Other,
                sequence_number: 0,
            },
        )
    }
}

/// Says what the reply `hop` means to the sweep.
pub fn classify_reply(hop: &TraceHop) -> (class: ReplyClass)
    ensures
        class == class_of(*hop),
{
    match hop.reply_type {
        ReplyType::TimeExceeded => ReplyClass::Exceeded(hop.sequence_number),
        ReplyType::EchoReply => ReplyClass::EchoReply(hop.sequence_number),
        ReplyType::Other => ReplyClass::Ignored,
    }
}

/// Turns the datagram `packet`, received from `host` after `duration`
/// nanoseconds, into the reply that its round keeps. A datagram that cannot
/// be decoded, or that carries a message that is not interpreted, gives
/// `None`: it counts as no reply at all.
pub fn process_reply(packet: &[u8], host: Ipv4Address, duration: u64) -> (kept: Option<TraceHop>)
    ensures
        kept == processed(packet@, host, duration),
{
    match decode_reply(packet, host, duration) {
        Ok(hop) => match classify_reply(&hop) {
            ReplyClass::Ignored => None,
            _ => Some(hop),
        },
        Err(_) => None,
    }
}

/// Whether `front` can stand in front of what a reply carries: an IPv4 header
/// of `header_words` 32-bit words and after it the first eight bytes of an
/// ICMP message of type `kind`.
pub open spec fn reply_front(front: Seq<u8>, header_words: int, kind: u8) -> bool {
    &&& 5 <= header_words <= 15
    &&& front.len() == header_words * 4 + ICMP_HEADER_LEN
    &&& front[0] == IP_VERSION * 16 + header_words
    &&& front[header_words * 4] == kind
}

/// A router's answer names the probe it dropped: a time-exceeded message
/// that returns the start of a probe, its IPv4 header and the eight bytes
/// behind it, decodes to a reply with the sequence number of that probe.
pub proof fn lemma_returned_probe_is_recognized(
    front: Seq<u8>,
    header_words: int,
    dest: Ipv4Address,
    ttl: u8,
    seq: u16,
    host: Ipv4Address,
    reply_time: u64,
)
    requires
        reply_front(front, header_words, ICMP_TIME_EXCEEDED),
    ensures
        decoded(
            front + probe_packet(dest, ttl, seq).take(EMBEDDED_REQUEST_OFFSET as int),
            host,
            reply_time,
        ) == Ok::<TraceHop, DecodeError>(
            TraceHop {
                hop_addr: host,
                reply_time,
                reply_type: ReplyType::TimeExceeded,
                sequence_number: seq,
            },
        ),
{
}

/// The destination's answer names the probe it answers: an echo reply that
/// carries the sequence number `seq` decodes to a reply with that number.
pub proof fn lemma_echo_reply_is_recognized(
    front: Seq<u8>,
    header_words: int,
    seq: u16,
    rest: Seq<u8>,
    host: Ipv4Address,
    reply_time: u64,
)
    requires
        reply_front(front, header_words, ICMP_ECHO_REPLY),
        front[header_words * 4 + SEQUENCE_OFFSET] == high_byte(seq),
        front[header_words * 4 + SEQUENCE_OFFSET + 1] == low_byte(seq),
    ensures
        decoded(front + rest, host, reply_time) == Ok::<TraceHop, DecodeError>(
            TraceHop {
                hop_addr: host,
                reply_time,
                reply_type: ReplyType::EchoReply,
                sequence_number: seq,
            },
        ),
{
}

} // verus!
