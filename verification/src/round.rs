//! One round: from the replies that arrived while it listened to the outcome
//! of its hop.

use vstd::prelude::*;
use crate::address::Ipv4Address;
use crate::config::Config;
use crate::reply::TraceHop;
use crate::sequence::{ttl_window_contains, window_contains};

verus! {

/// What a round found out about its hop.
#[derive(Clone, Copy, Debug, PartialEq, Eq, Structural)]
pub enum HopOutcome {
    /// No valid reply arrived.
    Silent,
    /// Some probes were answered, but not all: the time is unknown.
    Partial {
        /// The sender of the first valid reply.
        hop_addr: Ipv4Address,
    },
    /// Every probe was answered.
    Complete {
        /// The sender of the first valid reply.
        hop_addr: Ipv4Address,
        /// The mean of the valid replies' times, in nanoseconds, rounded down.
        mean_reply_time: u64,
    },
}

/// The test that a reply answers a probe of round `ttl`.
pub open spec fn answers_round(ttl: u8, tries_per_hop: usize) -> spec_fn(TraceHop) -> bool {
    |hop: TraceHop| window_contains(ttl, tries_per_hop, hop.sequence_number)
}

/// The replies among `replies` that answer a probe of round `ttl`, in the
/// order of their arrival.
pub open spec fn valid_replies(replies: Seq<TraceHop>, ttl: u8, tries_per_hop: usize) -> Seq<
    TraceHop,
> {
    replies.filter(answers_round(ttl, tries_per_hop))
}

/// The sum of the times of `replies`.
pub open spec fn total_reply_time(replies: Seq<TraceHop>) -> int
    decreases replies.len(),
{
    if replies.len() == 0 {
        0
    } else {
        total_reply_time(replies.drop_last()) + replies.last().reply_time
    }
}

/// The arithmetic mean of the times of `replies`, rounded down.
pub open spec fn mean_reply_time(replies: Seq<TraceHop>) -> int {
    total_reply_time(replies) / (replies.len() as int)
}

/// The outcome of a round of `tries_per_hop` probes whose valid replies, in
/// the order of their arrival, are `valid`.
pub open spec fn outcome_of(valid: Seq<TraceHop>, tries_per_hop: usize) -> HopOutcome {
    if valid.len() == 0 {
        HopOutcome::Silent
    } else if valid.len() < tries_per_hop {
        HopOutcome::Partial { hop_addr: valid[0].hop_addr }
    } else {
        HopOutcome::Complete {
            hop_addr: valid[0].hop_addr,
            mean_reply_time: mean_reply_time(valid) as u64,
        }
    }
}

/// The outcome of round `ttl`, in which `replies` arrived in this order.
pub open spec fn round_outcome(replies: Seq<TraceHop>, ttl: u8, tries_per_hop: usize)
    -> HopOutcome {
    outcome_of(valid_replies(replies, ttl, tries_per_hop), tries_per_hop)
}

/// The sum of reply times is at most the largest time for each reply.
pub proof fn lemma_total_reply_time_bound(replies: Seq<TraceHop>)
    ensures
        0 <= total_reply_time(replies) <= replies.len() * u64::MAX,
    decreases replies.len(),
{
    if replies.len() > 0 {
        lemma_total_reply_time_bound(replies.drop_last());
        assert(replies.len() * u64::MAX == replies.drop_last().len() * u64::MAX + u64::MAX)
            by (nonlinear_arith)
            requires
                replies.len() == replies.drop_last().len() + 1,
        ;
    }
}

/// The mean of reply times is a time: it fits 64 bits.
pub proof fn lemma_mean_reply_time_bound(replies: Seq<TraceHop>)
    requires
        replies.len() > 0,
    ensures
        0 <= mean_reply_time(replies) <= u64::MAX,
{
    lemma_total_reply_time_bound(replies);
    let total = total_reply_time(replies);
    let count = replies.len() as int;
    assert(0 <= total / count <= u64::MAX) by (nonlinear_arith)
        requires
            count > 0,
            0 <= total <= count * u64::MAX,
    ;
}

/// Keeps the replies that answer a probe of round `ttl` and drops the others,
/// which belong to another round.
pub fn filter_out_unhandled_packets(config: &Config, ttl: u8, replies: &Vec<TraceHop>) -> (kept:
    Vec<TraceHop>)
    ensures
        kept@ == valid_replies(replies@, ttl, config.tries_per_hop),
{
    let ghost test = answers_round(ttl, config.tries_per_hop);
    let mut kept: Vec<TraceHop> = Vec::new();
    let mut i: usize = 0;
    while i < replies.len()
        invariant
            i <= replies@.len(),
            test == answers_round(ttl, config.tries_per_hop),
            kept@ == replies@.take(i as int).filter(test),
        decreases replies@.len() - i,
    {
        let hop = replies[i];
        proof {
            reveal(Seq::filter);
            assert(replies@.take(i + 1).drop_last() =~= replies@.take(i as int));
        }
        if ttl_window_contains(ttl, config.tries_per_hop, hop.sequence_number) {
            kept.push(hop);
        }
        i = i + 1;
    }
    assert(replies@.take(i as int) =~= replies@);
    kept
}

/// Adds up the times of `replies`.
fn sum_reply_times(replies: &Vec<TraceHop>) -> (total: u128)
    ensures
        total == total_reply_time(replies@),
{
    let mut total: u128 = 0;
    let mut i: usize = 0;
    while i < replies.len()
        invariant
            i <= replies@.len(),
            total == total_reply_time(replies@.take(i as int)),
        decreases replies@.len() - i,
    {
        proof {
            assert(replies@.take(i + 1).drop_last() =~= replies@.take(i as int));
            lemma_total_reply_time_bound(replies@.take(i + 1));
            assert((i + 1) * u64::MAX <= usize::MAX * u64::MAX) by (nonlinear_arith)
                requires
                    i + 1 <= usize::MAX,
            ;
        }
        total = total + replies[i].reply_time as u128;
        i = i + 1;
    }
    assert(replies@.take(i as int) =~= replies@);
    total
}

/// Gives the outcome of round `ttl` from the replies that arrived while it
/// listened, in the order of their arrival. Replies to probes of another
/// round do not count. Without a valid reply the hop is silent; with fewer
/// valid replies than probes it is partial; else it is complete, with the
/// mean time of the valid replies. The address is that of the first valid
/// reply.
pub fn aggregate_round(config: &Config, ttl: u8, replies: &Vec<TraceHop>) -> (outcome: HopOutcome)
    ensures
        outcome == round_outcome(replies@, ttl, config.tries_per_hop),
{
    let valid = filter_out_unhandled_packets(config, ttl, replies);
    if valid.len() == 0 {
        HopOutcome::Silent
    } else if valid.len() < config.tries_per_hop {
        HopOutcome::Partial { hop_addr: valid[0].hop_addr }
    } else {
        let total = sum_reply_times(&valid);
        proof {
            lemma_mean_reply_time_bound(valid@);
        }
        let mean = total / (valid.len() as u128);
        HopOutcome::Complete { hop_addr: valid[0].hop_addr, mean_reply_time: mean as u64 }
    }
}

/// What a round's outcome is for each count of valid replies: none make the
/// hop silent; fewer than the probes sent make it partial, with the address
/// of the first to arrive; as many as the probes sent make it complete, with
/// that address and the arithmetic mean of their times.
pub proof fn lemma_outcome_by_count(replies: Seq<TraceHop>, ttl: u8, tries_per_hop: usize)
    ensures
        ({
            let valid = valid_replies(replies, ttl, tries_per_hop);
            let outcome = round_outcome(replies, ttl, tries_per_hop);
            &&& valid.len() == 0 ==> outcome == HopOutcome::Silent
            &&& 0 < valid.len() < tries_per_hop ==> outcome == (HopOutcome::Partial {
                hop_addr: valid[0].hop_addr,
            })
            &&& valid.len() > 0 && valid.len() == tries_per_hop ==> {
                &&& outcome == (HopOutcome::Complete {
                    hop_addr: valid[0].hop_addr,
                    mean_reply_time: (total_reply_time(valid) / (tries_per_hop as int)) as u64,
                })
                &&& 0 <= total_reply_time(valid) / (tries_per_hop as int) <= u64::MAX
            }
        }),
{
    let valid = valid_replies(replies, ttl, tries_per_hop);
    if valid.len() > 0 {
        lemma_mean_reply_time_bound(valid);
    }
}

/// The valid replies are exactly the replies whose sequence number lies in
/// the round's window, in their order of arrival: each of them lies in the
/// window, and each reply that does is among them.
pub proof fn lemma_valid_replies_are_in_window(
    replies: Seq<TraceHop>,
    ttl: u8,
    tries_per_hop: usize,
)
    ensures
        forall|i: int|
            0 <= i < valid_replies(replies, ttl, tries_per_hop).len() ==> window_contains(
                ttl,
                tries_per_hop,
                (#[trigger] valid_replies(replies, ttl, tries_per_hop)[i]).sequence_number,
            ),
        forall|i: int|
            0 <= i < replies.len() && window_contains(
                ttl,
                tries_per_hop,
                (#[trigger] replies[i]).sequence_number,
            ) ==> valid_replies(replies, ttl, tries_per_hop).contains(replies[i]),
{
    let test = answers_round(ttl, tries_per_hop);
    assert forall|i: int| 0 <= i < replies.filter(test).len() implies test(
        #[trigger] replies.filter(test)[i],
    ) by {
        replies.lemma_filter_pred(test, i);
    }
    assert forall|i: int|
        0 <= i < replies.len() && test(#[trigger] replies[i]) implies replies.filter(
        test,
    ).contains(replies[i]) by {
        replies.lemma_filter_contains(test, i);
    }
}

/// A stray reply changes nothing: a reply whose sequence number lies outside
/// the window of round `ttl` leaves the round's outcome as it is without that
/// reply, wherever among the round's replies it arrived.
pub proof fn lemma_stray_reply_excluded(
    replies: Seq<TraceHop>,
    stray: TraceHop,
    at: int,
    ttl: u8,
    tries_per_hop: usize,
)
    requires
        0 <= at <= replies.len(),
        !window_contains(ttl, tries_per_hop, stray.sequence_number),
    ensures
        valid_replies(replies.insert(at, stray), ttl, tries_per_hop) == valid_replies(
            replies,
            ttl,
            tries_per_hop,
        ),
        round_outcome(replies.insert(at, stray), ttl, tries_per_hop) == round_outcome(
            replies,
            ttl,
            tries_per_hop,
        ),
{
    let test = answers_round(ttl, tries_per_hop);
    let before = replies.subrange(0, at);
    let after = replies.subrange(at, replies.len() as int);
    assert(replies =~= before + after);
    Seq::filter_distributes_over_add(before, after, test);
    Seq::filter_distributes_over_add(before.push(stray), after, test);
    assert(before.push(stray).filter(test) == before.filter(test)) by {
        reveal(Seq::filter);
        assert(before.push(stray).drop_last() =~= before);
    }
}

} // verus!
