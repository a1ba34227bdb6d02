//! Sequence numbers: each probe of a sweep carries the number of its round's
//! window plus its place in the round, so that a reply names the probe that
//! caused it.

use vstd::prelude::*;

verus! {

/// How many sequence numbers the 16-bit wire field can hold.
pub const SEQUENCE_SPACE: u32 = 0x1_0000;

/// The place of probe `attempt` of round `ttl` among all probes of a sweep
/// that sends `tries_per_hop` probes per round.
pub open spec fn probe_index(ttl: int, tries_per_hop: int, attempt: int) -> int {
    (ttl - 1) * tries_per_hop + attempt
}

/// The sequence number on the wire: the probe's index, cut to 16 bits.
pub open spec fn sequence_number(ttl: u8, tries_per_hop: usize, attempt: int) -> u16 {
    (probe_index(ttl as int, tries_per_hop as int, attempt) % (SEQUENCE_SPACE as int)) as u16
}

/// Whether `seq` lies in the window of round `ttl`:
/// `[(ttl - 1) * tries_per_hop, ttl * tries_per_hop)`.
pub open spec fn window_contains(ttl: u8, tries_per_hop: usize, seq: u16) -> bool {
    (ttl - 1) * tries_per_hop <= seq < ttl * tries_per_hop
}

/// Whether the windows of all rounds up to `max_ttl` lie within the 16-bit
/// sequence space, so that no index is cut.
pub open spec fn sweep_fits(max_ttl: u8, tries_per_hop: usize) -> bool {
    max_ttl * tries_per_hop <= SEQUENCE_SPACE
}

/// The sequence number of probe `attempt` in round `ttl`.
pub fn sequence_for(ttl: u8, tries_per_hop: usize, attempt: usize) -> (seq: u16)
    requires
        ttl >= 1,
    ensures
        seq == sequence_number(ttl, tries_per_hop, attempt as int),
{
    let rounds: u128 = (ttl - 1) as u128;
    assert(rounds * tries_per_hop <= 0xFF * 0xFFFF_FFFF_FFFF_FFFF) by (nonlinear_arith)
        requires
            0 <= rounds <= 0xFF,
            0 <= tries_per_hop <= 0xFFFF_FFFF_FFFF_FFFF,
    ;
    let index: u128 = rounds * (tries_per_hop as u128) + (attempt as u128);
    (index % 0x1_0000) as u16
}

/// Whether `seq` belongs to round `ttl`.
pub fn ttl_window_contains(ttl: u8, tries_per_hop: usize, seq: u16) -> (inside: bool)
    ensures
        inside == window_contains(ttl, tries_per_hop, seq),
{
    if ttl == 0 {
        assert((ttl - 1) * tries_per_hop <= 0) by (nonlinear_arith)
            requires
                ttl == 0,
                tries_per_hop >= 0,
        ;
        assert(ttl * tries_per_hop == 0) by (nonlinear_arith)
            requires
                ttl == 0,
        ;
        return false;
    }
    let rounds: u128 = (ttl - 1) as u128;
    assert(rounds * tries_per_hop <= 0xFF * 0xFFFF_FFFF_FFFF_FFFF) by (nonlinear_arith)
        requires
            0 <= rounds <= 0xFF,
            0 <= tries_per_hop <= 0xFFFF_FFFF_FFFF_FFFF,
    ;
    assert(ttl * tries_per_hop <= 0xFF * 0xFFFF_FFFF_FFFF_FFFF) by (nonlinear_arith)
        requires
            0 <= ttl <= 0xFF,
            0 <= tries_per_hop <= 0xFFFF_FFFF_FFFF_FFFF,
    ;
    let low: u128 = rounds * (tries_per_hop as u128);
    let high: u128 = (ttl as u128) * (tries_per_hop as u128);
    low <= seq as u128 && (seq as u128) < high
}

/// Where the sweep fits the sequence space, the sequence number of a probe is
/// its index, uncut.
pub proof fn lemma_sequence_is_index(max_ttl: u8, tries_per_hop: usize, ttl: u8, attempt: usize)
    requires
        1 <= ttl <= max_ttl,
        attempt < tries_per_hop,
        sweep_fits(max_ttl, tries_per_hop),
    ensures
        sequence_number(ttl, tries_per_hop, attempt as int) == probe_index(
            ttl as int,
            tries_per_hop as int,
            attempt as int,
        ),
        0 <= probe_index(ttl as int, tries_per_hop as int, attempt as int) < ttl * tries_per_hop,
        ttl * tries_per_hop <= max_ttl * tries_per_hop,
{
    let p = tries_per_hop as int;
    assert((ttl - 1) * p >= 0 && ttl * p == (ttl - 1) * p + p && ttl * p <= max_ttl * p)
        by (nonlinear_arith)
        requires
            1 <= ttl <= max_ttl,
            p >= 0,
    ;
}

/// The window of an earlier round ends where that of a later round begins, or
/// before.
proof fn lemma_windows_lie_apart(tries_per_hop: usize, earlier: u8, later: u8)
    ensures
        earlier < later ==> earlier * tries_per_hop <= (later - 1) * tries_per_hop,
{
    if earlier < later {
        assert(earlier * tries_per_hop <= (later - 1) * tries_per_hop) by (nonlinear_arith)
            requires
                earlier <= later - 1,
                tries_per_hop >= 0,
        ;
    }
}

/// Two different probes of one sweep never share a sequence number, as long
/// as the sweep fits the sequence space.
pub proof fn lemma_sequence_numbers_distinct(
    max_ttl: u8,
    tries_per_hop: usize,
    ttl: u8,
    attempt: usize,
    other_ttl: u8,
    other_attempt: usize,
)
    requires
        1 <= ttl <= max_ttl,
        1 <= other_ttl <= max_ttl,
        attempt < tries_per_hop,
        other_attempt < tries_per_hop,
        sweep_fits(max_ttl, tries_per_hop),
        ttl != other_ttl || attempt != other_attempt,
    ensures
        sequence_number(ttl, tries_per_hop, attempt as int) != sequence_number(
            other_ttl,
            tries_per_hop,
            other_attempt as int,
        ),
{
    lemma_sequence_is_index(max_ttl, tries_per_hop, ttl, attempt);
    lemma_sequence_is_index(max_ttl, tries_per_hop, other_ttl, other_attempt);
    lemma_windows_lie_apart(tries_per_hop, ttl, other_ttl);
    lemma_windows_lie_apart(tries_per_hop, other_ttl, ttl);
}

/// A probe's sequence number lies in the window of its own round and in the
/// window of no other round, as long as the sweep fits the sequence space.
pub proof fn lemma_window_of_own_round_only(
    max_ttl: u8,
    tries_per_hop: usize,
    ttl: u8,
    attempt: usize,
    other_ttl: u8,
)
    requires
        1 <= ttl <= max_ttl,
        1 <= other_ttl <= max_ttl,
        attempt < tries_per_hop,
        sweep_fits(max_ttl, tries_per_hop),
    ensures
        window_contains(ttl, tries_per_hop, sequence_number(ttl, tries_per_hop, attempt as int)),
        other_ttl != ttl ==> !window_contains(
            other_ttl,
            tries_per_hop,
            sequence_number(ttl, tries_per_hop, attempt as int),
        ),
{
    lemma_sequence_is_index(max_ttl, tries_per_hop, ttl, attempt);
    lemma_windows_lie_apart(tries_per_hop, ttl, other_ttl);
    lemma_windows_lie_apart(tries_per_hop, other_ttl, ttl);
}

/// Every number in the window of a round is the sequence number of one of the
/// round's probes: of the attempt that stands as far into the round as the
/// number stands into the window.
pub proof fn lemma_window_holds_probes_only(ttl: u8, tries_per_hop: usize, seq: u16)
    requires
        window_contains(ttl, tries_per_hop, seq),
    ensures
        0 <= seq - (ttl - 1) * tries_per_hop < tries_per_hop,
        sequence_number(ttl, tries_per_hop, seq - (ttl - 1) * tries_per_hop) == seq,
{
    let p = tries_per_hop as int;
    assert(ttl * p == (ttl - 1) * p + p) by (nonlinear_arith);
}

} // verus!
