//! The sweep: round after round with a growing time-to-live, until the
//! destination answers or the ceiling is passed.
//!
//! The session decides; its caller acts. Each state calls for one action
//! (send the probes, receive until the deadline, report the hop, finish), and
//! the caller reports back what happened as an event.

use vstd::prelude::*;
use crate::address::Ipv4Address;
use crate::config::Config;
use crate::probe::{probe_packet, round_probes};
use crate::reply::{process_reply, processed, ReplyType, TraceHop};
use crate::round::{
    aggregate_round, answers_round, filter_out_unhandled_packets, lemma_stray_reply_excluded,
    round_outcome, valid_replies, HopOutcome,
};
use crate::sequence::{sequence_number, window_contains};

verus! {

/// The time-to-live at which a sweep gives up unless it is told otherwise.
pub const MAX_TTL: u8 = 64;

/// Nanoseconds in a second.
pub const NANOS_PER_SECOND: u64 = 1_000_000_000;

/// The outcome of the round with one time-to-live.
#[derive(Clone, Copy, Debug, PartialEq, Eq, Structural)]
pub struct TraceHopResult {
    /// The time-to-live of the round's probes: the hop's distance.
    pub ttl: u8,
    /// What the round found out.
    pub outcome: HopOutcome,
}

/// Where a sweep stands.
#[derive(Clone, Copy, Debug, PartialEq, Eq, Structural)]
pub enum TraceState {
    /// The probes of round `ttl` are to be sent.
    Probing { ttl: u8 },
    /// Round `ttl`, begun at `round_start`, listens for replies.
    Listening { ttl: u8, round_start: u64 },
    /// Round `ttl` is over and its outcome is to be reported.
    Aggregating { ttl: u8 },
    /// The destination answered: the sweep is over.
    Reached,
    /// The last round passed without an answer from the destination: the
    /// sweep is over.
    Exceeded,
}

/// What happened since the session last called for an action. Times are
/// nanoseconds on one clock that never runs backwards.
#[derive(Debug)]
pub enum Event {
    /// The probes of the round were handed to the network; the round began
    /// at `now`.
    ProbesSent { now: u64 },
    /// The datagram `packet` arrived from `host` at `now`.
    Reply { packet: Vec<u8>, host: Ipv4Address, now: u64 },
    /// Nothing arrived; it is `now`.
    Tick { now: u64 },
    /// The outcome of the round was reported.
    Reported,
}

/// What the session calls for.
#[derive(Debug)]
pub enum Action {
    /// Send these packets, in this order, then report `Event::ProbesSent`.
    SendProbes { probes: Vec<Vec<u8>> },
    /// Wait for a datagram until `deadline` at the latest, then report
    /// `Event::Reply` or `Event::Tick`.
    Receive { deadline: u64 },
    /// Report the outcome of the round, then report `Event::Reported`.
    Report { hop: TraceHopResult },
    /// The sweep is over; `reached` says whether the destination answered.
    Finish { reached: bool },
}

/// A sweep as contracts see it.
pub struct SessionView {
    /// What the sweep is run with.
    pub config: Config,
    /// The time-to-live of the last round.
    pub max_ttl: u8,
    /// Where the sweep stands.
    pub state: TraceState,
    /// The replies kept so far in the round at hand, in the order of their
    /// arrival.
    pub replies: Seq<TraceHop>,
    /// The outcomes of the rounds that are over, in the order of the rounds.
    pub hops: Seq<TraceHopResult>,
}

/// One sweep: its settings, its state, and the outcomes collected so far.
pub struct TraceSession {
    config: Config,
    max_ttl: u8,
    state: TraceState,
    replies: Vec<TraceHop>,
    hops: Vec<TraceHopResult>,
}

/// The instant at which a round begun at `round_start` stops listening:
/// `timeout` seconds later, or the end of the clock if that comes first.
pub open spec fn listen_deadline(round_start: u64, timeout: u64) -> u64 {
    if round_start + timeout * NANOS_PER_SECOND > u64::MAX {
        u64::MAX
    } else {
        (round_start + timeout * NANOS_PER_SECOND) as u64
    }
}

/// The time of a reply that arrives at `now` in a round begun at
/// `round_start`.
pub open spec fn elapsed(round_start: u64, now: u64) -> u64 {
    if now >= round_start {
        (now - round_start) as u64
    } else {
        0
    }
}

/// Whether one of `replies` is an echo reply.
pub open spec fn has_echo_reply(replies: Seq<TraceHop>) -> bool {
    exists|i: int|
        0 <= i < replies.len() && (#[trigger] replies[i]).reply_type == ReplyType::EchoReply
}

/// Whether the destination answered in round `ttl`: whether one of the valid
/// replies among `replies` is an echo reply. A stray echo reply, one that
/// answers a probe of another round, does not count.
pub open spec fn round_reached(replies: Seq<TraceHop>, ttl: u8, tries_per_hop: usize) -> bool {
    has_echo_reply(valid_replies(replies, ttl, tries_per_hop))
}

/// Whether `hop` is an echo reply to a probe of round `ttl`.
pub open spec fn is_valid_echo_reply(hop: TraceHop, ttl: u8, tries_per_hop: usize) -> bool {
    hop.reply_type == ReplyType::EchoReply && window_contains(
        ttl,
        tries_per_hop,
        hop.sequence_number,
    )
}

/// The session before its first round.
pub open spec fn initial_session(config: Config, max_ttl: u8) -> SessionView {
    SessionView {
        config,
        max_ttl,
        state: TraceState::Probing { ttl: 1 },
        replies: Seq::empty(),
        hops: Seq::empty(),
    }
}

/// The session once round `ttl` has stopped listening: the outcome of the
/// round is added to the outcomes collected.
pub open spec fn round_closed(session: SessionView, ttl: u8) -> SessionView {
    SessionView {
        state: TraceState::Aggregating { ttl },
        hops: session.hops.push(
            TraceHopResult {
                ttl,
                outcome: round_outcome(session.replies, ttl, session.config.tries_per_hop),
            },
        ),
        ..session
    }
}

/// The session after `event`. An event that the state does not wait for
/// changes nothing.
pub open spec fn next_session(session: SessionView, event: Event) -> SessionView {
    match (session.state, event) {
        (TraceState::Probing { ttl }, Event::ProbesSent { now }) => SessionView {
            state: TraceState::Listening { ttl, round_start: now },
            replies: Seq::empty(),
            ..session
        },
        (TraceState::Listening { ttl, round_start }, Event::Reply { packet, host, now }) => {
            if now > listen_deadline(round_start, session.config.timeout) {
                round_closed(session, ttl)
            } else {
                match processed(packet@, host, elapsed(round_start, now)) {
                    Some(hop) => SessionView { replies: session.replies.push(hop), ..session },
                    None => session,
                }
            }
        },
        (TraceState::Listening { ttl, round_start }, Event::Tick { now }) => {
            if now > listen_deadline(round_start, session.config.timeout) {
                round_closed(session, ttl)
            } else {
                session
            }
        },
        (TraceState::Aggregating { ttl }, Event::Reported) => {
            if round_reached(session.replies, ttl, session.config.tries_per_hop) {
                SessionView { state: TraceState::Reached, ..session }
            } else if ttl < session.max_ttl {
                SessionView {
                    state: TraceState::Probing { ttl: (ttl + 1) as u8 },
                    replies: Seq::empty(),
                    ..session
                }
            } else {
                SessionView { state: TraceState::Exceeded, ..session }
            }
        },
        _ => session,
    }
}

/// Whether `action` is what the state of `session` calls for.
pub open spec fn action_for(session: SessionView, action: Action) -> bool {
    match session.state {
        TraceState::Probing { ttl } => {
            &&& action matches Action::SendProbes { probes }
            &&& probes@.len() == session.config.tries_per_hop
            &&& forall|i: int|
                0 <= i < probes@.len() ==> (#[trigger] probes@[i])@ == probe_packet(
                    session.config.destination,
                    ttl,
                    sequence_number(ttl, session.config.tries_per_hop, i),
                )
        },
        TraceState::Listening { ttl, round_start } => {
            action matches Action::Receive { deadline } && deadline == listen_deadline(
                round_start,
                session.config.timeout,
            )
        },
        TraceState::Aggregating { ttl } => {
            action matches Action::Report { hop } && hop == (TraceHopResult {
                ttl,
                outcome: round_outcome(session.replies, ttl, session.config.tries_per_hop),
            })
        },
        TraceState::Reached => action matches Action::Finish { reached } && reached,
        TraceState::Exceeded => action matches Action::Finish { reached } && !reached,
    }
}

/// The number of rounds a sweep with ceiling `max_ttl` runs at most: there is
/// always a first round.
pub open spec fn round_limit(max_ttl: u8) -> int {
    if max_ttl >= 1 {
        max_ttl as int
    } else {
        1
    }
}

/// What holds of a session at every moment: the outcomes collected are those
/// of rounds 1, 2, 3 and so on, one for each round that is over, and the
/// round at hand is within the ceiling. A sweep that ended as reached holds a
/// valid echo reply of its last round; one that ended as exceeded ran every
/// round and holds none.
pub open spec fn well_formed(session: SessionView) -> bool {
    &&& forall|i: int| 0 <= i < session.hops.len() ==> (#[trigger] session.hops[i]).ttl == i + 1
    &&& session.hops.len() <= round_limit(session.max_ttl)
    &&& match session.state {
        TraceState::Probing { ttl } => {
            &&& 1 <= ttl <= round_limit(session.max_ttl)
            &&& session.hops.len() == ttl - 1
            &&& session.replies.len() == 0
        },
        TraceState::Listening { ttl, round_start } => {
            &&& 1 <= ttl <= round_limit(session.max_ttl)
            &&& session.hops.len() == ttl - 1
        },
        TraceState::Aggregating { ttl } => {
            &&& 1 <= ttl <= round_limit(session.max_ttl)
            &&& session.hops.len() == ttl
            &&& session.hops.last().outcome == round_outcome(
                session.replies,
                ttl,
                session.config.tries_per_hop,
            )
        },
        TraceState::Reached => {
            &&& session.hops.len() >= 1
            &&& round_reached(
                session.replies,
                session.hops.len() as u8,
                session.config.tries_per_hop,
            )
        },
        TraceState::Exceeded => {
            &&& session.hops.len() == round_limit(session.max_ttl)
            &&& !round_reached(
                session.replies,
                session.hops.len() as u8,
                session.config.tries_per_hop,
            )
        },
    }
}

impl View for TraceSession {
    type V = SessionView;

    closed spec fn view(&self) -> SessionView {
        SessionView {
            config: self.config,
            max_ttl: self.max_ttl,
            state: self.state,
            replies: self.replies@,
            hops: self.hops@,
        }
    }
}

/// Computes the instant at which a round begun at `round_start` stops
/// listening.
pub fn deadline_after(round_start: u64, timeout: u64) -> (deadline: u64)
    ensures
        deadline == listen_deadline(round_start, timeout),
{
    let span: u128 = (timeout as u128) * (NANOS_PER_SECOND as u128);
    let end: u128 = (round_start as u128) + span;
    if end > u64::MAX as u128 {
        u64::MAX
    } else {
        end as u64
    }
}

/// Says whether one of `replies` is an echo reply.
pub fn contains_echo_reply(replies: &Vec<TraceHop>) -> (found: bool)
    ensures
        found == has_echo_reply(replies@),
{
    let mut i: usize = 0;
    while i < replies.len()
        invariant
            i <= replies@.len(),
            forall|j: int|
                0 <= j < i ==> (#[trigger] replies@[j]).reply_type != ReplyType::EchoReply,
        decreases replies@.len() - i,
    {
        if replies[i].reply_type == ReplyType::EchoReply {
            return true;
        }
        i = i + 1;
    }
    false
}

impl TraceSession {
    #[verifier::type_invariant]
    spec fn holds(self) -> bool {
        well_formed(self@)
    }

    /// A session for a sweep with `config` whose last round has time-to-live
    /// `max_ttl`. The first round has time-to-live 1.
    pub fn new(config: Config, max_ttl: u8) -> (session: TraceSession)
        ensures
            session@ == initial_session(config, max_ttl),
            well_formed(session@),
    {
        TraceSession {
            config,
            max_ttl,
            state: TraceState::Probing { ttl: 1 },
            replies: Vec::new(),
            hops: Vec::new(),
        }
    }

    /// Where the sweep stands.
    pub fn state(&self) -> (state: TraceState)
        ensures
            state == self@.state,
    {
        self.state
    }

    /// The outcomes of the rounds that are over, in the order of the rounds.
    pub fn hops(&self) -> (hops: &Vec<TraceHopResult>)
        ensures
            hops@ == self@.hops,
    {
        &self.hops
    }

    /// The replies kept so far in the round at hand.
    pub fn replies(&self) -> (replies: &Vec<TraceHop>)
        ensures
            replies@ == self@.replies,
    {
        &self.replies
    }

    /// What the sweep is run with.
    pub fn config(&self) -> (config: Config)
        ensures
            config == self@.config,
    {
        self.config
    }

    /// The time-to-live of the last round.
    pub fn max_ttl(&self) -> (max_ttl: u8)
        ensures
            max_ttl == self@.max_ttl,
    {
        self.max_ttl
    }

    /// The action that the state calls for.
    pub fn action(&self) -> (action: Action)
        ensures
            action_for(self@, action),
            well_formed(self@),
    {
        proof {
            use_type_invariant(self);
        }
        match self.state {
            TraceState::Probing { ttl } => Action::SendProbes {
                probes: round_probes(&self.config, ttl),
            },
            TraceState::Listening { ttl, round_start } => Action::Receive {
                deadline: deadline_after(round_start, self.config.timeout),
            },
            TraceState::Aggregating { ttl } => Action::Report {
                hop: TraceHopResult {
                    ttl,
                    outcome: aggregate_round(&self.config, ttl, &self.replies),
                },
            },
            TraceState::Reached => Action::Finish { reached: true },
            TraceState::Exceeded => Action::Finish { reached: false },
        }
    }

    /// Takes the session from its state to the next on `event`, and says
    /// what the new state calls for.
    pub fn step(self, event: Event) -> (next: (TraceSession, Action))
        ensures
            next.0@ == next_session(self@, event),
            action_for(next.0@, next.1),
            well_formed(next.0@),
    {
        proof {
            use_type_invariant(&self);
            lemma_step_keeps_well_formed(self@, event);
        }
        let TraceSession { config, max_ttl, state, replies, hops } = self;
        let session = match (state, event) {
            (TraceState::Probing { ttl }, Event::ProbesSent { now }) => TraceSession {
                config,
                max_ttl,
                state: TraceState::Listening { ttl, round_start: now },
                replies: Vec::new(),
                hops,
            },
            (TraceState::Listening { ttl, round_start }, Event::Reply { packet, host, now }) => {
                if now > deadline_after(round_start, config.timeout) {
                    Self::close_round(config, max_ttl, ttl, replies, hops)
                } else {
                    let reply_time: u64 = if now >= round_start {
                        now - round_start
                    } else {
                        0
                    };
                    let mut replies = replies;
                    match process_reply(packet.as_slice(), host, reply_time) {
                        Some(hop) => {
                            replies.push(hop);
                        },
                        None => {},
                    }
                    TraceSession { config, max_ttl, state, replies, hops }
                }
            },
            (TraceState::Listening { ttl, round_start }, Event::Tick { now }) => {
                if now > deadline_after(round_start, config.timeout) {
                    Self::close_round(config, max_ttl, ttl, replies, hops)
                } else {
                    TraceSession { config, max_ttl, state, replies, hops }
                }
            },
            (TraceState::Aggregating { ttl }, Event::Reported) => {
                let valid = filter_out_unhandled_packets(&config, ttl, &replies);
                if contains_echo_reply(&valid) {
                    TraceSession { config, max_ttl, state: TraceState::Reached, replies, hops }
                } else if ttl < max_ttl {
                    TraceSession {
                        config,
                        max_ttl,
                        state: TraceState::Probing { ttl: ttl + 1 },
                        replies: Vec::new(),
                        hops,
                    }
                } else {
                    TraceSession { config, max_ttl, state: TraceState::Exceeded, replies, hops }
                }
            },
            _ => TraceSession { config, max_ttl, state, replies, hops },
        };
        let action = session.action();
        (session, action)
    }

    /// Closes round `ttl`: its outcome joins the outcomes collected.
    fn close_round(
        config: Config,
        max_ttl: u8,
        ttl: u8,
        replies: Vec<TraceHop>,
        hops: Vec<TraceHopResult>,
    ) -> (session: TraceSession)
        requires
            well_formed(
                SessionView {
                    config,
                    max_ttl,
                    state: TraceState::Aggregating { ttl },
                    replies: replies@,
                    hops: hops@.push(
                        TraceHopResult {
                            ttl,
                            outcome: round_outcome(replies@, ttl, config.tries_per_hop),
                        },
                    ),
                },
            ),
        ensures
            session@ == (SessionView {
                config,
                max_ttl,
                state: TraceState::Aggregating { ttl },
                replies: replies@,
                hops: hops@.push(
                    TraceHopResult {
                        ttl,
                        outcome: round_outcome(replies@, ttl, config.tries_per_hop),
                    },
                ),
            }),
    {
        let outcome = aggregate_round(&config, ttl, &replies);
        let mut hops = hops;
        hops.push(TraceHopResult { ttl, outcome });
        TraceSession { config, max_ttl, state: TraceState::Aggregating { ttl }, replies, hops }
    }
}

/// Every step keeps a session well-formed, and none changes what the sweep
/// is run with.
pub proof fn lemma_step_keeps_well_formed(session: SessionView, event: Event)
    requires
        well_formed(session),
    ensures
        well_formed(next_session(session, event)),
        next_session(session, event).config == session.config,
        next_session(session, event).max_ttl == session.max_ttl,
{
}

/// The session after each of `events` in turn.
pub open spec fn session_after(session: SessionView, events: Seq<Event>) -> SessionView
    decreases events.len(),
{
    if events.len() == 0 {
        session
    } else {
        next_session(session_after(session, events.drop_last()), events.last())
    }
}

/// Whether `event` brings `session` a valid echo reply: the session is
/// listening, and the event hands over, before the deadline, a datagram that
/// decodes to an echo reply to a probe of the round at hand.
pub open spec fn brings_valid_echo_reply(session: SessionView, event: Event) -> bool {
    &&& session.state matches TraceState::Listening { ttl, round_start }
    &&& event matches Event::Reply { packet, host, now }
    &&& now <= listen_deadline(round_start, session.config.timeout)
    &&& processed(packet@, host, 0) matches Some(hop)
    &&& is_valid_echo_reply(hop, ttl, session.config.tries_per_hop)
}

/// Whether the round at hand, if there is one, holds no valid echo reply.
pub open spec fn round_not_reached(session: SessionView) -> bool {
    match session.state {
        TraceState::Listening { ttl, round_start } => !round_reached(
            session.replies,
            ttl,
            session.config.tries_per_hop,
        ),
        TraceState::Aggregating { ttl } => !round_reached(
            session.replies,
            ttl,
            session.config.tries_per_hop,
        ),
        _ => true,
    }
}

/// A round is reached exactly when one of its replies is an echo reply whose
/// sequence number lies in the round's window.
pub proof fn lemma_round_reached_by_valid_echo_reply(
    replies: Seq<TraceHop>,
    ttl: u8,
    tries_per_hop: usize,
)
    ensures
        round_reached(replies, ttl, tries_per_hop) <==> exists|i: int|
            0 <= i < replies.len() && is_valid_echo_reply(
                #[trigger] replies[i],
                ttl,
                tries_per_hop,
            ),
{
    let test = answers_round(ttl, tries_per_hop);
    let valid = replies.filter(test);
    if round_reached(replies, ttl, tries_per_hop) {
        let j = choose|j: int|
            0 <= j < valid.len() && (#[trigger] valid[j]).reply_type == ReplyType::EchoReply;
        replies.lemma_filter_pred(test, j);
        replies.lemma_filter_contains_rev(test, valid[j]);
    }
    if exists|i: int|
        0 <= i < replies.len() && is_valid_echo_reply(#[trigger] replies[i], ttl, tries_per_hop) {
        let i = choose|i: int|
            0 <= i < replies.len() && is_valid_echo_reply(
                #[trigger] replies[i],
                ttl,
                tries_per_hop,
            );
        replies.lemma_filter_contains(test, i);
    }
}

/// A stray echo reply does not make a round reached: an echo reply whose
/// sequence number lies outside the round's window leaves the round as it is
/// without that reply, wherever among the round's replies it arrived.
pub proof fn lemma_stray_echo_reply_does_not_reach(
    replies: Seq<TraceHop>,
    stray: TraceHop,
    at: int,
    ttl: u8,
    tries_per_hop: usize,
)
    requires
        0 <= at <= replies.len(),
        !window_contains(ttl, tries_per_hop, stray.sequence_number),
    ensures
        round_reached(replies.insert(at, stray), ttl, tries_per_hop) == round_reached(
            replies,
            ttl,
            tries_per_hop,
        ),
{
    lemma_stray_reply_excluded(replies, stray, at, ttl, tries_per_hop);
}

/// A valid echo reply that arrives before the deadline is kept for its round:
/// from then on the round counts as reached, and it goes on listening.
pub proof fn lemma_echo_reply_is_kept(session: SessionView, event: Event)
    requires
        brings_valid_echo_reply(session, event),
    ensures
        next_session(session, event).state == session.state,
        round_reached(
            next_session(session, event).replies,
            session.state->Listening_ttl,
            session.config.tries_per_hop,
        ),
{
    let kept = next_session(session, event).replies;
    let ttl = session.state->Listening_ttl;
    lemma_round_reached_by_valid_echo_reply(kept, ttl, session.config.tries_per_hop);
    assert(is_valid_echo_reply(
        kept[session.replies.len() as int],
        ttl,
        session.config.tries_per_hop,
    ));
}

/// Once a round holds a valid echo reply it can end in one way only: whatever
/// happens next, the same round is still listening or being reported and
/// still holds it, or the sweep has stopped with the destination reached. It
/// never goes on to the next round and never ends as exceeded.
pub proof fn lemma_echo_reply_stays(session: SessionView, event: Event)
    requires
        session.state is Listening || session.state is Aggregating,
        !round_not_reached(session),
    ensures
        next_session(session, event).state is Reached || {
            &&& next_session(session, event).state is Listening || next_session(
                session,
                event,
            ).state is Aggregating
            &&& !round_not_reached(next_session(session, event))
        },
{
    let next = next_session(session, event);
    let p = session.config.tries_per_hop;
    if next.replies != session.replies {
        let ttl = session.state->Listening_ttl;
        lemma_round_reached_by_valid_echo_reply(session.replies, ttl, p);
        lemma_round_reached_by_valid_echo_reply(next.replies, ttl, p);
        let i = choose|i: int|
            0 <= i < session.replies.len() && is_valid_echo_reply(
                #[trigger] session.replies[i],
                ttl,
                p,
            );
        assert(next.replies[i] == session.replies[i]);
    }
}

/// A round that holds a valid echo reply stops the sweep at its time-to-live:
/// once it is reported the destination counts as reached, whether the round
/// was partial or complete, and no further outcome is collected.
pub proof fn lemma_echo_reply_ends_sweep(session: SessionView)
    requires
        session.state is Aggregating,
        round_reached(
            session.replies,
            session.state->Aggregating_ttl,
            session.config.tries_per_hop,
        ),
    ensures
        next_session(session, Event::Reported) == (SessionView {
            state: TraceState::Reached,
            ..session
        }),
{
}

/// A round without a valid echo reply never ends the sweep as reached,
/// whatever stray replies it holds: once it is reported the sweep goes on to
/// the next time-to-live, or, after the last round, ends as exceeded.
pub proof fn lemma_no_echo_reply_goes_on(session: SessionView)
    requires
        session.state is Aggregating,
        !round_reached(
            session.replies,
            session.state->Aggregating_ttl,
            session.config.tries_per_hop,
        ),
    ensures
        session.state->Aggregating_ttl < session.max_ttl ==> next_session(
            session,
            Event::Reported,
        ).state == (TraceState::Probing { ttl: (session.state->Aggregating_ttl + 1) as u8 }),
        session.state->Aggregating_ttl >= session.max_ttl ==> next_session(
            session,
            Event::Reported,
        ).state == TraceState::Exceeded,
{
}

/// A step that brings no valid echo reply does not make the round at hand
/// reached, nor the sweep.
proof fn lemma_step_without_valid_echo_reply(session: SessionView, event: Event)
    requires
        well_formed(session),
        round_not_reached(session),
        !(session.state is Reached),
        !brings_valid_echo_reply(session, event),
    ensures
        round_not_reached(next_session(session, event)),
        !(next_session(session, event).state is Reached),
{
    let next = next_session(session, event);
    if session.state is Listening && next.state is Listening {
        let ttl = session.state->Listening_ttl;
        lemma_round_reached_by_valid_echo_reply(session.replies, ttl, session.config.tries_per_hop);
        lemma_round_reached_by_valid_echo_reply(next.replies, ttl, session.config.tries_per_hop);
    }
}

/// A sweep in which no valid echo reply is ever received does not end as
/// reached, whatever else happens and in whatever order, stray echo replies
/// included; when it has ended, it has ended as exceeded, with one outcome
/// for each round up to the ceiling.
pub proof fn lemma_without_echo_reply_never_reached(
    config: Config,
    max_ttl: u8,
    events: Seq<Event>,
)
    requires
        forall|i: int|
            0 <= i < events.len() ==> !brings_valid_echo_reply(
                session_after(initial_session(config, max_ttl), events.take(i)),
                #[trigger] events[i],
            ),
    ensures
        session_after(initial_session(config, max_ttl), events).config == config,
        session_after(initial_session(config, max_ttl), events).max_ttl == max_ttl,
        well_formed(session_after(initial_session(config, max_ttl), events)),
        round_not_reached(session_after(initial_session(config, max_ttl), events)),
        !(session_after(initial_session(config, max_ttl), events).state is Reached),
        session_after(initial_session(config, max_ttl), events).state is Exceeded
            ==> session_after(initial_session(config, max_ttl), events).hops.len() == round_limit(
            max_ttl,
        ),
    decreases events.len(),
{
    let start = initial_session(config, max_ttl);
    if events.len() > 0 {
        let earlier = events.drop_last();
        let event = events.last();
        assert forall|i: int| 0 <= i < earlier.len() implies !brings_valid_echo_reply(
            session_after(start, earlier.take(i)),
            #[trigger] earlier[i],
        ) by {
            assert(earlier.take(i) =~= events.take(i));
        }
        lemma_without_echo_reply_never_reached(config, max_ttl, earlier);
        lemma_step_keeps_well_formed(session_after(start, earlier), event);
        lemma_step_without_valid_echo_reply(session_after(start, earlier), event);
    }
}

} // verus!
