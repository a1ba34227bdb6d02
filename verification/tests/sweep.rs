use xtraceroute::address::Ipv4Address;
use xtraceroute::config::Config;
use xtraceroute::probe::create_icmp_packet;
use xtraceroute::reply::{ReplyType, TraceHop};
use xtraceroute::round::HopOutcome;
use xtraceroute::traceroute::{
    contains_echo_reply, deadline_after, Action, Event, TraceHopResult, TraceSession, TraceState,
    MAX_TTL,
};

const SECOND: u64 = 1_000_000_000;

fn target() -> Ipv4Address {
    Ipv4Address::new(8, 8, 8, 8)
}

fn hop_host(n: u8) -> Ipv4Address {
    Ipv4Address::new(172, 16, 0, n)
}

fn sweep_settings(tries_per_hop: usize) -> Config {
    Config { destination: target(), tries_per_hop, timeout: 1 }
}

fn outer_header() -> Vec<u8> {
    let mut packet = vec![0u8; 20];
    packet[0] = 0x45;
    packet[9] = 1;
    packet
}

fn exceeded_for(ttl: u8, seq: u16) -> Vec<u8> {
    let probe = create_icmp_packet(target(), ttl, seq);
    let mut packet = outer_header();
    packet.extend([11, 0, 0, 0, 0, 0, 0, 0]);
    packet.extend(&probe[..28]);
    packet
}

fn echo_for(seq: u16) -> Vec<u8> {
    let mut packet = outer_header();
    packet.extend([0, 0, 0, 0, 0, 0, (seq / 256) as u8, (seq % 256) as u8]);
    packet
}

fn listening(session: TraceSession, now: u64) -> TraceSession {
    let (session, action) = session.step(Event::ProbesSent { now });
    assert!(matches!(action, Action::Receive { .. }));
    session
}

fn silent_round(session: TraceSession, start: u64) -> (TraceSession, Action) {
    let session = listening(session, start);
    let (session, action) = session.step(Event::Tick { now: start + SECOND + 1 });
    assert!(matches!(action, Action::Report { .. }));
    session.step(Event::Reported)
}

#[test]
fn ceiling_is_sixty_four() {
    assert_eq!(MAX_TTL, 64);
}

#[test]
fn session_starts_by_probing_the_first_hop() {
    let session = TraceSession::new(sweep_settings(5), MAX_TTL);
    assert_eq!(session.state(), TraceState::Probing { ttl: 1 });
    assert!(session.hops().is_empty());
    assert!(session.replies().is_empty());
    assert_eq!(session.config(), sweep_settings(5));
    assert_eq!(session.max_ttl(), 64);
    match session.action() {
        Action::SendProbes { probes } => {
            assert_eq!(probes.len(), 5);
            for (attempt, probe) in probes.iter().enumerate() {
                assert_eq!(*probe, create_icmp_packet(target(), 1, attempt as u16));
            }
        }
        other => panic!("unexpected action {:?}", other),
    }
}

#[test]
fn sending_starts_the_listening() {
    let session = TraceSession::new(sweep_settings(5), MAX_TTL);
    let (session, action) = session.step(Event::ProbesSent { now: 250 });
    assert_eq!(session.state(), TraceState::Listening { ttl: 1, round_start: 250 });
    match action {
        Action::Receive { deadline } => assert_eq!(deadline, 250 + SECOND),
        other => panic!("unexpected action {:?}", other),
    }
}

#[test]
fn deadline_is_round_start_plus_timeout() {
    assert_eq!(deadline_after(0, 1), SECOND);
    assert_eq!(deadline_after(17, 3), 3 * SECOND + 17);
    assert_eq!(deadline_after(17, 0), 17);
}

#[test]
fn deadline_stops_at_the_end_of_the_clock() {
    assert_eq!(deadline_after(0, u64::MAX), u64::MAX);
    assert_eq!(deadline_after(u64::MAX, 1), u64::MAX);
    assert_eq!(deadline_after(u64::MAX - SECOND, 1), u64::MAX);
    assert_eq!(deadline_after(u64::MAX - SECOND - 1, 1), u64::MAX - 1);
}

#[test]
fn listening_lasts_until_the_deadline_has_passed() {
    let session = listening(TraceSession::new(sweep_settings(5), MAX_TTL), 100);
    let (session, _) = session.step(Event::Tick { now: 100 });
    assert_eq!(session.state(), TraceState::Listening { ttl: 1, round_start: 100 });
    let (session, action) = session.step(Event::Tick { now: 100 + SECOND });
    assert_eq!(session.state(), TraceState::Listening { ttl: 1, round_start: 100 });
    match action {
        Action::Receive { deadline } => assert_eq!(deadline, 100 + SECOND),
        other => panic!("unexpected action {:?}", other),
    }
    let (session, action) = session.step(Event::Tick { now: 101 + SECOND });
    assert_eq!(session.state(), TraceState::Aggregating { ttl: 1 });
    match action {
        Action::Report { hop } => {
            assert_eq!(hop, TraceHopResult { ttl: 1, outcome: HopOutcome::Silent })
        }
        other => panic!("unexpected action {:?}", other),
    }
}

#[test]
fn reply_is_kept_with_its_time_since_round_start() {
    let session = listening(TraceSession::new(sweep_settings(5), MAX_TTL), 1_000);
    let (session, action) =
        session.step(Event::Reply { packet: exceeded_for(1, 2), host: hop_host(1), now: 4_500 });
    assert_eq!(session.state(), TraceState::Listening { ttl: 1, round_start: 1_000 });
    assert!(matches!(action, Action::Receive { deadline } if deadline == 1_000 + SECOND));
    assert_eq!(
        *session.replies(),
        vec![TraceHop {
            hop_addr: hop_host(1),
            reply_time: 3_500,
            reply_type: ReplyType::TimeExceeded,
            sequence_number: 2,
        }]
    );
}

#[test]
fn reply_before_round_start_has_no_time() {
    let session = listening(TraceSession::new(sweep_settings(5), MAX_TTL), 1_000);
    let (session, _) =
        session.step(Event::Reply { packet: exceeded_for(1, 0), host: hop_host(1), now: 999 });
    assert_eq!(session.replies()[0].reply_time, 0);
}

#[test]
fn undecodable_reply_is_dropped_and_listening_goes_on() {
    let session = listening(TraceSession::new(sweep_settings(5), MAX_TTL), 0);
    let (session, _) = session.step(Event::Reply { packet: vec![], host: hop_host(1), now: 1 });
    let (session, _) =
        session.step(Event::Reply { packet: vec![0x45, 0, 0, 20], host: hop_host(1), now: 2 });
    let mut unreachable = outer_header();
    unreachable.extend([3, 3, 0, 0, 0, 0, 0, 0]);
    let (session, action) =
        session.step(Event::Reply { packet: unreachable, host: hop_host(1), now: 3 });
    assert_eq!(session.state(), TraceState::Listening { ttl: 1, round_start: 0 });
    assert!(session.replies().is_empty());
    assert!(matches!(action, Action::Receive { .. }));
}

#[test]
fn reply_after_the_deadline_closes_the_round_and_is_dropped() {
    let session = listening(TraceSession::new(sweep_settings(1), MAX_TTL), 0);
    let (session, action) = session.step(Event::Reply {
        packet: exceeded_for(1, 0),
        host: hop_host(1),
        now: SECOND + 1,
    });
    assert_eq!(session.state(), TraceState::Aggregating { ttl: 1 });
    assert!(session.replies().is_empty());
    assert!(matches!(
        action,
        Action::Report { hop: TraceHopResult { ttl: 1, outcome: HopOutcome::Silent } }
    ));
}

#[test]
fn complete_round_is_reported_and_the_sweep_goes_on() {
    let session = listening(TraceSession::new(sweep_settings(2), MAX_TTL), 0);
    let (session, _) =
        session.step(Event::Reply { packet: exceeded_for(1, 1), host: hop_host(1), now: 30 });
    let (session, _) =
        session.step(Event::Reply { packet: exceeded_for(1, 0), host: hop_host(2), now: 50 });
    let (session, action) = session.step(Event::Tick { now: SECOND + 1 });
    let expected = TraceHopResult {
        ttl: 1,
        outcome: HopOutcome::Complete { hop_addr: hop_host(1), mean_reply_time: 40 },
    };
    assert!(matches!(action, Action::Report { hop } if hop == expected));
    assert_eq!(*session.hops(), vec![expected]);
    let (session, action) = session.step(Event::Reported);
    assert_eq!(session.state(), TraceState::Probing { ttl: 2 });
    assert!(session.replies().is_empty());
    match action {
        Action::SendProbes { probes } => {
            assert_eq!(probes.len(), 2);
            assert_eq!(probes[0], create_icmp_packet(target(), 2, 2));
            assert_eq!(probes[1], create_icmp_packet(target(), 2, 3));
        }
        other => panic!("unexpected action {:?}", other),
    }
}

#[test]
fn late_reply_of_an_earlier_round_is_not_counted() {
    let (session, _) = silent_round(TraceSession::new(sweep_settings(2), MAX_TTL), 0);
    let session = listening(session, 2 * SECOND);
    let (session, _) = session.step(Event::Reply {
        packet: exceeded_for(1, 1),
        host: hop_host(1),
        now: 2 * SECOND + 10,
    });
    let (session, _) = session.step(Event::Reply {
        packet: exceeded_for(2, 2),
        host: hop_host(2),
        now: 2 * SECOND + 20,
    });
    let (session, action) = session.step(Event::Tick { now: 4 * SECOND });
    let second = TraceHopResult { ttl: 2, outcome: HopOutcome::Partial { hop_addr: hop_host(2) } };
    assert!(matches!(action, Action::Report { hop } if hop == second));
    assert_eq!(
        *session.hops(),
        vec![TraceHopResult { ttl: 1, outcome: HopOutcome::Silent }, second]
    );
}

#[test]
fn echo_reply_ends_the_sweep_as_reached() {
    let (session, _) = silent_round(TraceSession::new(sweep_settings(5), MAX_TTL), 0);
    let session = listening(session, 2 * SECOND);
    let (session, _) =
        session.step(Event::Reply { packet: echo_for(7), host: target(), now: 2 * SECOND + 9 });
    let (session, action) = session.step(Event::Tick { now: 4 * SECOND });
    let last = TraceHopResult { ttl: 2, outcome: HopOutcome::Partial { hop_addr: target() } };
    assert!(matches!(action, Action::Report { hop } if hop == last));
    let (session, action) = session.step(Event::Reported);
    assert_eq!(session.state(), TraceState::Reached);
    assert!(matches!(action, Action::Finish { reached: true }));
    assert_eq!(
        *session.hops(),
        vec![TraceHopResult { ttl: 1, outcome: HopOutcome::Silent }, last]
    );
}

#[test]
fn echo_reply_among_router_replies_ends_the_sweep() {
    let session = listening(TraceSession::new(sweep_settings(3), MAX_TTL), 0);
    let (session, _) =
        session.step(Event::Reply { packet: exceeded_for(1, 0), host: hop_host(1), now: 10 });
    let (session, _) = session.step(Event::Reply { packet: echo_for(1), host: target(), now: 20 });
    let (session, _) =
        session.step(Event::Reply { packet: exceeded_for(1, 2), host: hop_host(1), now: 60 });
    let (session, _) = session.step(Event::Tick { now: 2 * SECOND });
    let (session, action) = session.step(Event::Reported);
    assert_eq!(session.state(), TraceState::Reached);
    assert!(matches!(action, Action::Finish { reached: true }));
    assert_eq!(
        *session.hops(),
        vec![TraceHopResult {
            ttl: 1,
            outcome: HopOutcome::Complete { hop_addr: hop_host(1), mean_reply_time: 30 },
        }]
    );
}

#[test]
fn echo_reply_outside_the_window_does_not_end_the_sweep() {
    let session = listening(TraceSession::new(sweep_settings(5), MAX_TTL), 0);
    let (session, _) =
        session.step(Event::Reply { packet: echo_for(9), host: target(), now: 1_000 });
    assert_eq!(session.replies().len(), 1);
    let (session, action) = session.step(Event::Tick { now: 2 * SECOND });
    assert!(matches!(
        action,
        Action::Report { hop: TraceHopResult { ttl: 1, outcome: HopOutcome::Silent } }
    ));
    let (session, action) = session.step(Event::Reported);
    assert_eq!(session.state(), TraceState::Probing { ttl: 2 });
    assert!(session.replies().is_empty());
    assert!(matches!(action, Action::SendProbes { .. }));
}

#[test]
fn late_echo_reply_to_an_earlier_round_does_not_end_a_later_round() {
    let (session, _) = silent_round(TraceSession::new(sweep_settings(5), MAX_TTL), 0);
    let session = listening(session, 2 * SECOND);
    let (session, _) =
        session.step(Event::Reply { packet: echo_for(4), host: target(), now: 2 * SECOND + 5 });
    let (session, _) = session.step(Event::Reply {
        packet: exceeded_for(2, 5),
        host: hop_host(2),
        now: 2 * SECOND + 6,
    });
    let (session, _) = session.step(Event::Tick { now: 4 * SECOND });
    let (session, _) = session.step(Event::Reported);
    assert_eq!(session.state(), TraceState::Probing { ttl: 3 });
    assert_eq!(
        session.hops()[1],
        TraceHopResult { ttl: 2, outcome: HopOutcome::Partial { hop_addr: hop_host(2) } }
    );
}

#[test]
fn echo_reply_at_the_edges_of_the_window_ends_the_sweep() {
    for seq in [5u16, 9] {
        let (session, _) = silent_round(TraceSession::new(sweep_settings(5), MAX_TTL), 0);
        let session = listening(session, 2 * SECOND);
        let (session, _) =
            session.step(Event::Reply { packet: echo_for(seq), host: target(), now: 3 * SECOND });
        let (session, _) = session.step(Event::Tick { now: 4 * SECOND });
        let (session, action) = session.step(Event::Reported);
        assert_eq!(session.state(), TraceState::Reached);
        assert!(matches!(action, Action::Finish { reached: true }));
    }
    for seq in [4u16, 10] {
        let (session, _) = silent_round(TraceSession::new(sweep_settings(5), MAX_TTL), 0);
        let session = listening(session, 2 * SECOND);
        let (session, _) =
            session.step(Event::Reply { packet: echo_for(seq), host: target(), now: 3 * SECOND });
        let (session, _) = session.step(Event::Tick { now: 4 * SECOND });
        let (session, _) = session.step(Event::Reported);
        assert_eq!(session.state(), TraceState::Probing { ttl: 3 });
    }
}

#[test]
fn complete_round_of_echo_replies_ends_the_sweep() {
    let session = listening(TraceSession::new(sweep_settings(2), MAX_TTL), 0);
    let (session, _) = session.step(Event::Reply { packet: echo_for(0), host: target(), now: 10 });
    let (session, _) = session.step(Event::Reply { packet: echo_for(1), host: target(), now: 30 });
    let (session, _) = session.step(Event::Tick { now: 2 * SECOND });
    let (session, action) = session.step(Event::Reported);
    assert_eq!(session.state(), TraceState::Reached);
    assert!(matches!(action, Action::Finish { reached: true }));
    assert_eq!(
        *session.hops(),
        vec![TraceHopResult {
            ttl: 1,
            outcome: HopOutcome::Complete { hop_addr: target(), mean_reply_time: 20 },
        }]
    );
}

#[test]
fn stray_echo_replies_in_every_round_end_the_sweep_as_exceeded() {
    let mut session = TraceSession::new(sweep_settings(5), MAX_TTL);
    for ttl in 1..=64u8 {
        assert_eq!(session.state(), TraceState::Probing { ttl });
        let next = listening(session, 0);
        let (next, _) =
            next.step(Event::Reply { packet: echo_for(5 * ttl as u16), host: target(), now: 7 });
        let (next, _) = next.step(Event::Tick { now: SECOND + 1 });
        let (next, action) = next.step(Event::Reported);
        session = next;
        if ttl == 64 {
            assert!(matches!(action, Action::Finish { reached: false }));
        }
    }
    assert_eq!(session.state(), TraceState::Exceeded);
    assert_eq!(session.hops().len(), 64);
    assert_eq!(session.hops()[63], TraceHopResult { ttl: 64, outcome: HopOutcome::Silent });
}

#[test]
fn sweep_without_echo_reply_ends_as_exceeded() {
    let mut session = TraceSession::new(sweep_settings(5), MAX_TTL);
    let mut clock: u64 = 0;
    for ttl in 1..=64u8 {
        assert_eq!(session.state(), TraceState::Probing { ttl });
        let (next, action) = silent_round(session, clock);
        session = next;
        clock += 2 * SECOND;
        if ttl < 64 {
            assert!(matches!(action, Action::SendProbes { .. }));
        } else {
            assert!(matches!(action, Action::Finish { reached: false }));
        }
    }
    assert_eq!(session.state(), TraceState::Exceeded);
    assert_ne!(session.state(), TraceState::Reached);
    assert_eq!(session.hops().len(), 64);
    for (i, hop) in session.hops().iter().enumerate() {
        assert_eq!(*hop, TraceHopResult { ttl: i as u8 + 1, outcome: HopOutcome::Silent });
    }
}

#[test]
fn sweep_with_router_replies_only_ends_as_exceeded() {
    let mut session = TraceSession::new(sweep_settings(1), 3);
    for ttl in 1..=3u8 {
        session = listening(session, 0);
        let (next, _) = session.step(Event::Reply {
            packet: exceeded_for(ttl, ttl as u16 - 1),
            host: hop_host(ttl),
            now: 10,
        });
        let (next, _) = next.step(Event::Tick { now: SECOND + 1 });
        let (next, _) = next.step(Event::Reported);
        session = next;
    }
    assert_eq!(session.state(), TraceState::Exceeded);
    assert_eq!(session.hops().len(), 3);
    assert_eq!(
        session.hops()[2],
        TraceHopResult {
            ttl: 3,
            outcome: HopOutcome::Complete { hop_addr: hop_host(3), mean_reply_time: 10 },
        }
    );
}

#[test]
fn ceiling_of_zero_still_runs_one_round() {
    let session = TraceSession::new(sweep_settings(5), 0);
    assert_eq!(session.state(), TraceState::Probing { ttl: 1 });
    let (session, action) = silent_round(session, 0);
    assert_eq!(session.state(), TraceState::Exceeded);
    assert!(matches!(action, Action::Finish { reached: false }));
    assert_eq!(session.hops().len(), 1);
}

#[test]
fn highest_ceiling_ends_after_the_last_round() {
    let mut session = TraceSession::new(sweep_settings(1), 255);
    for _ in 0..255 {
        let (next, _) = silent_round(session, 0);
        session = next;
    }
    assert_eq!(session.state(), TraceState::Exceeded);
    assert_eq!(session.hops().len(), 255);
    assert_eq!(session.hops()[254].ttl, 255);
}

#[test]
fn events_that_the_state_does_not_wait_for_change_nothing() {
    let session = TraceSession::new(sweep_settings(5), MAX_TTL);
    let (session, _) = session.step(Event::Tick { now: 5 * SECOND });
    let (session, _) = session.step(Event::Reported);
    let (session, action) =
        session.step(Event::Reply { packet: echo_for(0), host: target(), now: 1 });
    assert_eq!(session.state(), TraceState::Probing { ttl: 1 });
    assert!(session.replies().is_empty());
    assert!(matches!(action, Action::SendProbes { .. }));
    let session = listening(session, 7);
    let (session, _) = session.step(Event::ProbesSent { now: 900 });
    let (session, _) = session.step(Event::Reported);
    assert_eq!(session.state(), TraceState::Listening { ttl: 1, round_start: 7 });
    let (session, _) = session.step(Event::Tick { now: 3 * SECOND });
    let (session, _) = session.step(Event::Tick { now: 9 * SECOND });
    let (session, action) = session.step(Event::ProbesSent { now: 1 });
    assert_eq!(session.state(), TraceState::Aggregating { ttl: 1 });
    assert_eq!(session.hops().len(), 1);
    assert!(matches!(action, Action::Report { .. }));
}

#[test]
fn finished_sweep_stays_finished() {
    let (session, _) = silent_round(TraceSession::new(sweep_settings(5), 1), 0);
    assert_eq!(session.state(), TraceState::Exceeded);
    let (session, _) = session.step(Event::ProbesSent { now: 1 });
    let (session, _) = session.step(Event::Tick { now: 9 * SECOND });
    let (session, action) = session.step(Event::Reported);
    assert_eq!(session.state(), TraceState::Exceeded);
    assert_eq!(session.hops().len(), 1);
    assert!(matches!(action, Action::Finish { reached: false }));
}

#[test]
fn echo_reply_is_found_among_replies() {
    let router_reply = TraceHop {
        hop_addr: hop_host(1),
        reply_time: 1,
        reply_type: ReplyType::TimeExceeded,
        sequence_number: 0,
    };
    let mut answer = router_reply;
    answer.reply_type = ReplyType::EchoReply;
    assert!(!contains_echo_reply(&vec![]));
    assert!(!contains_echo_reply(&vec![router_reply, router_reply]));
    assert!(contains_echo_reply(&vec![router_reply, answer]));
    assert!(contains_echo_reply(&vec![answer, router_reply]));
}
