use xtraceroute::address::Ipv4Address;
use xtraceroute::config::Config;
use xtraceroute::reply::{ReplyType, TraceHop};
use xtraceroute::round::{aggregate_round, filter_out_unhandled_packets, HopOutcome};

const MILLISECOND: u64 = 1_000_000;

fn settings(tries_per_hop: usize) -> Config {
    Config { destination: Ipv4Address::new(8, 8, 8, 8), tries_per_hop, timeout: 1 }
}

fn exceeded(host: u8, sequence_number: u16, reply_time: u64) -> TraceHop {
    TraceHop {
        hop_addr: Ipv4Address::new(10, 0, 0, host),
        reply_time,
        reply_type: ReplyType::TimeExceeded,
        sequence_number,
    }
}

#[test]
fn round_without_replies_is_silent() {
    assert_eq!(aggregate_round(&settings(5), 3, &vec![]), HopOutcome::Silent);
}

#[test]
fn round_with_some_replies_is_partial() {
    let replies = vec![exceeded(1, 10, 5), exceeded(2, 11, 6)];
    assert_eq!(
        aggregate_round(&settings(5), 3, &replies),
        HopOutcome::Partial { hop_addr: Ipv4Address::new(10, 0, 0, 1) }
    );
}

#[test]
fn round_with_one_reply_short_is_partial() {
    let replies =
        vec![exceeded(4, 13, 5), exceeded(2, 11, 6), exceeded(2, 10, 6), exceeded(2, 12, 6)];
    assert_eq!(
        aggregate_round(&settings(5), 3, &replies),
        HopOutcome::Partial { hop_addr: Ipv4Address::new(10, 0, 0, 4) }
    );
}

#[test]
fn round_with_all_replies_is_complete_with_mean_time() {
    let replies = vec![
        exceeded(1, 0, 10 * MILLISECOND),
        exceeded(1, 1, 12 * MILLISECOND),
        exceeded(1, 2, 11 * MILLISECOND),
        exceeded(1, 3, 13 * MILLISECOND),
    ];
    assert_eq!(
        aggregate_round(&settings(4), 1, &replies),
        HopOutcome::Complete {
            hop_addr: Ipv4Address::new(10, 0, 0, 1),
            mean_reply_time: 11_500_000,
        }
    );
}

#[test]
fn mean_time_is_rounded_down() {
    let replies = vec![exceeded(1, 0, 1), exceeded(1, 1, 2)];
    assert_eq!(
        aggregate_round(&settings(2), 1, &replies),
        HopOutcome::Complete { hop_addr: Ipv4Address::new(10, 0, 0, 1), mean_reply_time: 1 }
    );
}

#[test]
fn mean_of_largest_times_does_not_overflow() {
    let replies =
        vec![exceeded(1, 0, u64::MAX), exceeded(1, 1, u64::MAX), exceeded(1, 2, u64::MAX)];
    assert_eq!(
        aggregate_round(&settings(3), 1, &replies),
        HopOutcome::Complete { hop_addr: Ipv4Address::new(10, 0, 0, 1), mean_reply_time: u64::MAX }
    );
}

#[test]
fn stray_reply_is_left_out() {
    let replies = vec![exceeded(9, 9, 1), exceeded(2, 12, 2)];
    assert_eq!(
        filter_out_unhandled_packets(&settings(5), 3, &replies),
        vec![exceeded(2, 12, 2)]
    );
    assert_eq!(
        aggregate_round(&settings(5), 3, &replies),
        HopOutcome::Partial { hop_addr: Ipv4Address::new(10, 0, 0, 2) }
    );
}

#[test]
fn only_stray_replies_make_a_silent_round() {
    let replies = vec![exceeded(9, 9, 1), exceeded(9, 15, 1), exceeded(9, 0, 1)];
    assert_eq!(aggregate_round(&settings(5), 3, &replies), HopOutcome::Silent);
}

#[test]
fn stray_reply_does_not_complete_a_round() {
    let with_stray = vec![
        exceeded(1, 5, 10),
        exceeded(7, 4, 1_000),
        exceeded(1, 6, 20),
        exceeded(1, 7, 30),
        exceeded(1, 8, 40),
    ];
    let without =
        vec![exceeded(1, 5, 10), exceeded(1, 6, 20), exceeded(1, 7, 30), exceeded(1, 8, 40)];
    assert_eq!(
        aggregate_round(&settings(5), 2, &with_stray),
        aggregate_round(&settings(5), 2, &without)
    );
    assert_eq!(
        aggregate_round(&settings(5), 2, &with_stray),
        HopOutcome::Partial { hop_addr: Ipv4Address::new(10, 0, 0, 1) }
    );
}

#[test]
fn stray_reply_does_not_change_the_mean() {
    let replies = vec![exceeded(7, 7, 999), exceeded(1, 2, 10), exceeded(1, 3, 30)];
    assert_eq!(
        aggregate_round(&settings(2), 2, &replies),
        HopOutcome::Complete { hop_addr: Ipv4Address::new(10, 0, 0, 1), mean_reply_time: 20 }
    );
}

#[test]
fn address_is_that_of_the_first_arrival() {
    let replies = vec![exceeded(30, 14, 3), exceeded(20, 10, 1), exceeded(10, 12, 2)];
    assert_eq!(
        aggregate_round(&settings(5), 3, &replies),
        HopOutcome::Partial { hop_addr: Ipv4Address::new(10, 0, 0, 30) }
    );
}

#[test]
fn kept_replies_stay_in_arrival_order() {
    let replies = vec![
        exceeded(1, 14, 3),
        exceeded(2, 15, 3),
        exceeded(3, 10, 1),
        exceeded(4, 9, 1),
        exceeded(5, 12, 2),
    ];
    assert_eq!(
        filter_out_unhandled_packets(&settings(5), 3, &replies),
        vec![exceeded(1, 14, 3), exceeded(3, 10, 1), exceeded(5, 12, 2)]
    );
}

#[test]
fn more_valid_replies_than_probes_is_complete() {
    let replies = vec![exceeded(1, 0, 10), exceeded(1, 1, 20), exceeded(2, 1, 60)];
    assert_eq!(
        aggregate_round(&settings(2), 1, &replies),
        HopOutcome::Complete { hop_addr: Ipv4Address::new(10, 0, 0, 1), mean_reply_time: 30 }
    );
}

#[test]
fn round_without_probes_is_always_silent() {
    let replies = vec![exceeded(1, 0, 10)];
    assert_eq!(aggregate_round(&settings(0), 1, &replies), HopOutcome::Silent);
}

#[test]
fn echo_replies_count_as_valid_replies() {
    let mut reply = exceeded(1, 5, 40);
    reply.reply_type = ReplyType::EchoReply;
    assert_eq!(
        aggregate_round(&settings(1), 6, &vec![reply]),
        HopOutcome::Complete { hop_addr: Ipv4Address::new(10, 0, 0, 1), mean_reply_time: 40 }
    );
}
