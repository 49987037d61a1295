//! Connection-mode controller: the state machines that sequence a session.
//!
//! A session runner around this module performs the outside work — dialing,
//! listening, sending, sleeping — and feeds each outcome back as an event.
//! The machines here make every decision: which state follows which event,
//! and which single action the runner owes next.  The runner may not send
//! anything the machine did not ask for.
//!
//! States run `Idle -> Connecting -> Handshaking -> Steady`, with `Faulted`
//! driving the reconnect path and `Closing` the stop path.  `Faulted` is not
//! terminal: after a capped backoff the machine dials again from the start
//! of the connect path, and the handshake and initial-info exchange are
//! recomputed, never replayed from cached values.

use vstd::prelude::*;

use crate::config::CattlePush;
use crate::message::CattleUpdate;

verus! {

/// The states of one connection-mode session.
#[derive(Clone, Copy, Debug, PartialEq, Eq, Structural)]
pub enum SessionState {
    /// Not yet started, or restarting after a backoff.
    Idle,
    /// A dial (or an accepted connection) is being established.
    Connecting,
    /// The identity/key announcement exchange is in flight.
    Handshaking,
    /// Periodic update exchange.
    Steady,
    /// Externally stopped; terminal.
    Closing,
    /// Connection lost or dial failed; waiting out the backoff.
    Faulted,
}

/// What a session runner owes after a step.  Exactly one action per event.
#[derive(Clone, Copy, Debug, PartialEq, Eq, Structural)]
pub enum Action {
    /// Dial the configured collector.
    Dial,
    /// Send `SendPublicKey` with this process's public key.
    SendPublicKey,
    /// Compute a fresh initial-connect report and send `SendInitialInfo`.
    SendInitialInfo,
    /// Compute a fresh periodic update and send `SendUpdate`.
    SendUpdate,
    /// Wait the backoff delay, then deliver `BackoffElapsed`.
    StartBackoff,
    /// Close the connection; the session is over.
    Close,
    /// Nothing is owed for this event in this state.
    Ignore,
}

/// Events a Push session reacts to.
#[derive(Clone, Copy, Debug, PartialEq, Eq, Structural)]
pub enum PushEvent {
    /// The controller is started.
    Start,
    /// The dial succeeded.
    DialSucceeded,
    /// The dial failed.
    DialFailed,
    /// The collector acknowledged the handshake.
    HandshakeAcked,
    /// An interval tick elapsed.
    Tick,
    /// The connection dropped.
    ConnectionLost,
    /// The reconnect backoff elapsed.
    BackoffElapsed,
    /// External stop.
    Stop,
}

/// One Push step: from a state and the sent-initial-info flag, under an
/// event, to the next state, the next flag, and the action owed.
///
/// The flag records whether `SendInitialInfo` went out on the current
/// connection; it is set exactly when the handshake acknowledgment triggers
/// the initial report, and cleared whenever the connection is lost, so the
/// report is re-sent on every reconnect.
pub open spec fn push_transition(st: SessionState, sent: bool, ev: PushEvent) -> (
    SessionState,
    bool,
    Action,
) {
    match (st, ev) {
        (SessionState::Idle, PushEvent::Start) => (SessionState::Connecting, false, Action::Dial),
        (SessionState::Connecting, PushEvent::DialSucceeded) => (
            SessionState::Handshaking,
            false,
            Action::SendPublicKey,
        ),
        (SessionState::Connecting, PushEvent::DialFailed) => (
            SessionState::Faulted,
            false,
            Action::StartBackoff,
        ),
        (SessionState::Handshaking, PushEvent::HandshakeAcked) => (
            SessionState::Steady,
            true,
            Action::SendInitialInfo,
        ),
        (SessionState::Steady, PushEvent::Tick) => (SessionState::Steady, sent, Action::SendUpdate),
        (SessionState::Connecting, PushEvent::ConnectionLost) => (
            SessionState::Faulted,
            false,
            Action::StartBackoff,
        ),
        (SessionState::Handshaking, PushEvent::ConnectionLost) => (
            SessionState::Faulted,
            false,
            Action::StartBackoff,
        ),
        (SessionState::Steady, PushEvent::ConnectionLost) => (
            SessionState::Faulted,
            false,
            Action::StartBackoff,
        ),
        (SessionState::Faulted, PushEvent::BackoffElapsed) => (
            SessionState::Connecting,
            false,
            Action::Dial,
        ),
        (SessionState::Closing, _) => (SessionState::Closing, sent, Action::Ignore),
        (_, PushEvent::Stop) => (SessionState::Closing, sent, Action::Close),
        (_, _) => (st, sent, Action::Ignore),
    }
}

/// Cap on the consecutive-fault count, bounding the backoff exponent.
pub const FAULT_CAP: u32 = 6;

/// Backoff before the next reconnect attempt, in seconds: one second
/// doubled per consecutive fault, capped at 64 seconds.
pub open spec fn backoff_of(faults: u32) -> u32 {
    if faults >= FAULT_CAP {
        64u32
    } else {
        (1u32 << faults) as u32
    }
}

/// Consecutive-fault count after a step: it grows (up to the cap) when the
/// step starts a backoff, and resets when the session reaches `Steady`.
pub open spec fn faults_after(faults: u32, st: SessionState, sent: bool, ev: PushEvent) -> u32 {
    let (st2, _, act) = push_transition(st, sent, ev);
    if act == Action::StartBackoff {
        if faults < FAULT_CAP {
            (faults + 1) as u32
        } else {
            faults
        }
    } else if st2 == SessionState::Steady {
        0u32
    } else {
        faults
    }
}

/// The Push-mode controller: the agent dials out and reports on a timer.
pub struct PushController {
    /// Collector host, from the configuration.
    pub server: String,

    /// Collector port, from the configuration.
    pub port: u16,

    /// Seconds between update ticks, from the configuration.
    pub interval_seconds: u32,

    /// Current session state.
    pub state: SessionState,

    /// Whether `SendInitialInfo` went out on the current connection.
    pub initial_sent: bool,

    /// Consecutive faults since the last steady connection.
    pub faults: u32,
}

impl PushController {
    /// A controller for the given Push configuration, ready to start.
    pub fn new(cfg: CattlePush) -> (r: Self)
        ensures
            r.state == SessionState::Idle,
            r.initial_sent == false,
            r.faults == 0,
            r.server@ == cfg.server@,
            r.port == cfg.port,
            r.interval_seconds == cfg.interval_seconds,
    {
        PushController {
            server: cfg.server,
            port: cfg.port,
            interval_seconds: cfg.interval_seconds,
            state: SessionState::Idle,
            initial_sent: false,
            faults: 0,
        }
    }

    /// Drive the machine by one event; the result is the action the runner
    /// owes.  The configuration fields never change.
    pub fn step(&mut self, ev: PushEvent) -> (a: Action)
        ensures
            ({
                let (st, sent, act) = push_transition(
                    old(self).state,
                    old(self).initial_sent,
                    ev,
                );
                &&& final(self).state == st
                &&& final(self).initial_sent == sent
                &&& a == act
            }),
            final(self).faults == faults_after(
                old(self).faults,
                old(self).state,
                old(self).initial_sent,
                ev,
            ),
            final(self).server@ == old(self).server@,
            final(self).port == old(self).port,
            final(self).interval_seconds == old(self).interval_seconds,
    {
        let (state, initial_sent, action): (SessionState, bool, Action) = match (self.state, ev) {
            (SessionState::Idle, PushEvent::Start) => (
                SessionState::Connecting,
                false,
                Action::Dial,
            ),
            (SessionState::Connecting, PushEvent::DialSucceeded) => (
                SessionState::Handshaking,
                false,
                Action::SendPublicKey,
            ),
            (SessionState::Connecting, PushEvent::DialFailed) => (
                SessionState::Faulted,
                false,
                Action::StartBackoff,
            ),
            (SessionState::Handshaking, PushEvent::HandshakeAcked) => (
                SessionState::Steady,
                true,
                Action::SendInitialInfo,
            ),
            (SessionState::Steady, PushEvent::Tick) => (
                SessionState::Steady,
                self.initial_sent,
                Action::SendUpdate,
            ),
            (SessionState::Connecting, PushEvent::ConnectionLost) => (
                SessionState::Faulted,
                false,
                Action::StartBackoff,
            ),
            (SessionState::Handshaking, PushEvent::ConnectionLost) => (
                SessionState::Faulted,
                false,
                Action::StartBackoff,
            ),
            (SessionState::Steady, PushEvent::ConnectionLost) => (
                SessionState::Faulted,
                false,
                Action::StartBackoff,
            ),
            (SessionState::Faulted, PushEvent::BackoffElapsed) => (
                SessionState::Connecting,
                false,
                Action::Dial,
            ),
            (SessionState::Closing, _) => (SessionState::Closing, self.initial_sent, Action::Ignore),
            (_, PushEvent::Stop) => (SessionState::Closing, self.initial_sent, Action::Close),
            (_, _) => (self.state, self.initial_sent, Action::Ignore),
        };
        if action == Action::StartBackoff {
            if self.faults < FAULT_CAP {
                self.faults = self.faults + 1;
            }
        } else if state == SessionState::Steady {
            self.faults = 0;
        }
        self.state = state;
        self.initial_sent = initial_sent;
        action
    }

    /// Seconds to wait before the next reconnect attempt: one second,
    /// doubled per consecutive fault, capped at 64 seconds — never a hot
    /// loop against an unreachable collector.
    pub fn backoff_seconds(&self) -> (r: u32)
        ensures
            r == backoff_of(self.faults),
            1 <= r <= 64,
    {
        if self.faults >= FAULT_CAP {
            64
        } else {
            let r = 1u32 << self.faults;
            proof {
                let f = self.faults;
                assert((1u32 << f) >= 1 && (1u32 << f) <= 64) by (bit_vector)
                    requires
                        f < 6,
                ;
            }
            r
        }
    }
}

/// An update is owed exactly on a tick in `Steady`: none while connecting,
/// handshaking, faulted (a backoff window), or closing.
pub proof fn lemma_update_only_on_steady_tick(st: SessionState, sent: bool, ev: PushEvent)
    ensures
        push_transition(st, sent, ev).2 == Action::SendUpdate <==> (st == SessionState::Steady
            && ev == PushEvent::Tick),
{
}

/// The session invariant of the Push machine: in `Steady`, the initial
/// report has gone out on the current connection — and every step
/// preserves this, so an update can only follow a handshake that sent one.
pub proof fn lemma_steady_has_initial_sent(st: SessionState, sent: bool, ev: PushEvent)
    requires
        st == SessionState::Steady ==> sent,
    ensures
        ({
            let (st2, sent2, _) = push_transition(st, sent, ev);
            st2 == SessionState::Steady ==> sent2
        }),
{
}

/// The actions a run of the Push machine emits for a sequence of events.
pub open spec fn run_actions(st: SessionState, sent: bool, evs: Seq<PushEvent>) -> Seq<Action>
    decreases evs.len(),
{
    if evs.len() == 0 {
        Seq::empty()
    } else {
        let (st2, sent2, a) = push_transition(st, sent, evs[0]);
        seq![a] + run_actions(st2, sent2, evs.skip(1))
    }
}

proof fn lemma_run_actions_len(st: SessionState, sent: bool, evs: Seq<PushEvent>)
    ensures
        run_actions(st, sent, evs).len() == evs.len(),
    decreases evs.len(),
{
    if evs.len() > 0 {
        let (st2, sent2, _) = push_transition(st, sent, evs[0]);
        lemma_run_actions_len(st2, sent2, evs.skip(1));
    }
}

/// From any state where the initial report has not gone out on the current
/// connection, no `SendUpdate` is emitted before a `SendInitialInfo`.
proof fn lemma_no_update_before_initial(
    st: SessionState,
    sent: bool,
    evs: Seq<PushEvent>,
    i: int,
)
    requires
        !sent,
        st == SessionState::Steady ==> sent,
        0 <= i < evs.len(),
        run_actions(st, sent, evs)[i] == Action::SendUpdate,
    ensures
        exists|j: int|
            0 <= j < i && #[trigger] run_actions(st, sent, evs)[j] == Action::SendInitialInfo,
    decreases i,
{
    let (st2, sent2, a0) = push_transition(st, sent, evs[0]);
    let tail = run_actions(st2, sent2, evs.skip(1));
    lemma_run_actions_len(st2, sent2, evs.skip(1));
    if i == 0 {
        assert(a0 != Action::SendUpdate);
    } else {
        if a0 == Action::SendInitialInfo {
            assert(run_actions(st, sent, evs)[0] == Action::SendInitialInfo);
        } else {
            assert(!sent2);
            assert(st2 == SessionState::Steady ==> sent2);
            assert(tail[i - 1] == Action::SendUpdate);
            lemma_no_update_before_initial(st2, sent2, evs.skip(1), i - 1);
            let j = choose|j: int|
                0 <= j < i - 1 && #[trigger] tail[j] == Action::SendInitialInfo;
            assert(run_actions(st, sent, evs)[j + 1] == Action::SendInitialInfo);
        }
    }
}

/// Push reconnect: when the connection drops in `Steady`, the machine
/// faults, re-enters `Connecting` on the next backoff expiry, and along any
/// following events emits no `SendUpdate` before it has emitted a fresh
/// `SendInitialInfo`.  No event or action of the machine touches the
/// identity store: the identity is loaded once, before the session loop.
pub proof fn lemma_reconnect_resends_initial(evs: Seq<PushEvent>, i: int)
    requires
        evs.len() > 0,
        evs[0] == PushEvent::ConnectionLost,
        0 < i < evs.len(),
        run_actions(SessionState::Steady, true, evs)[i] == Action::SendUpdate,
    ensures
        push_transition(SessionState::Steady, true, PushEvent::ConnectionLost).0
            == SessionState::Faulted,
        push_transition(SessionState::Faulted, false, PushEvent::BackoffElapsed).0
            == SessionState::Connecting,
        exists|j: int|
            0 < j < i && #[trigger] run_actions(SessionState::Steady, true, evs)[j]
                == Action::SendInitialInfo,
{
    let full = run_actions(SessionState::Steady, true, evs);
    let tail = run_actions(SessionState::Faulted, false, evs.skip(1));
    lemma_run_actions_len(SessionState::Faulted, false, evs.skip(1));
    assert(tail[i - 1] == Action::SendUpdate);
    lemma_no_update_before_initial(SessionState::Faulted, false, evs.skip(1), i - 1);
    let j = choose|j: int| 0 <= j < i - 1 && #[trigger] tail[j] == Action::SendInitialInfo;
    assert(full[j + 1] == Action::SendInitialInfo);
}

/// Events of one passive (Pull) session.  The agent listens; a collector
/// connects, the session announces itself, and then answers each inbound
/// `RequestUpdate` with a fresh update.
#[derive(Clone, Copy, Debug, PartialEq, Eq, Structural)]
pub enum PullEvent {
    /// A collector's connection was accepted; the session starts.
    Accepted,
    /// The peer acknowledged the handshake.
    HandshakeAcked,
    /// The peer sent `RequestUpdate`.
    UpdateRequested,
    /// The peer sent bytes that did not decode (malformed or mismatched).
    BadMessageReceived,
    /// The connection dropped.
    ConnectionLost,
    /// External stop.
    Stop,
}

/// One Pull-session step: the same handshake-then-steady sequence as Push,
/// but passive — updates go out only when the peer asks.  A message that
/// does not decode is fatal for this session alone: the session closes and
/// sibling sessions are untouched.
pub open spec fn pull_transition(st: SessionState, ev: PullEvent) -> (SessionState, Action) {
    match (st, ev) {
        (SessionState::Idle, PullEvent::Accepted) => (
            SessionState::Handshaking,
            Action::SendPublicKey,
        ),
        (SessionState::Handshaking, PullEvent::HandshakeAcked) => (
            SessionState::Steady,
            Action::SendInitialInfo,
        ),
        (SessionState::Steady, PullEvent::UpdateRequested) => (
            SessionState::Steady,
            Action::SendUpdate,
        ),
        (SessionState::Closing, _) => (SessionState::Closing, Action::Ignore),
        (_, PullEvent::BadMessageReceived) => (SessionState::Closing, Action::Close),
        (_, PullEvent::ConnectionLost) => (SessionState::Closing, Action::Close),
        (_, PullEvent::Stop) => (SessionState::Closing, Action::Close),
        (_, _) => (st, Action::Ignore),
    }
}

/// One passive session of the Pull role.  Each accepted connection gets an
/// independent session; they share nothing but the snapshot engine.
pub struct PullSession {
    /// Current session state.
    pub state: SessionState,
}

impl PullSession {
    /// A session for a just-accepted connection.
    pub fn new() -> (r: Self)
        ensures
            r.state == SessionState::Idle,
    {
        PullSession { state: SessionState::Idle }
    }

    /// Drive the session by one event; the result is the action owed.
    pub fn step(&mut self, ev: PullEvent) -> (a: Action)
        ensures
            final(self).state == pull_transition(old(self).state, ev).0,
            a == pull_transition(old(self).state, ev).1,
    {
        let (state, action): (SessionState, Action) = match (self.state, ev) {
            (SessionState::Idle, PullEvent::Accepted) => (
                SessionState::Handshaking,
                Action::SendPublicKey,
            ),
            (SessionState::Handshaking, PullEvent::HandshakeAcked) => (
                SessionState::Steady,
                Action::SendInitialInfo,
            ),
            (SessionState::Steady, PullEvent::UpdateRequested) => (
                SessionState::Steady,
                Action::SendUpdate,
            ),
            (SessionState::Closing, _) => (SessionState::Closing, Action::Ignore),
            (_, PullEvent::BadMessageReceived) => (SessionState::Closing, Action::Close),
            (_, PullEvent::ConnectionLost) => (SessionState::Closing, Action::Close),
            (_, PullEvent::Stop) => (SessionState::Closing, Action::Close),
            (_, _) => (self.state, Action::Ignore),
        };
        self.state = state;
        action
    }
}

/// What one poll cycle records for one target: a fresh update, or an
/// explicit failure — never a silent gap.
pub enum TargetRecord {
    /// The target answered with this update.
    Update(CattleUpdate),
    /// The target was unreachable, refused, or timed out this cycle.
    Failed,
}

/// The record an outcome produces: `Some(update)` on success, `None` (a
/// timeout or refusal) as an explicit failure.
pub open spec fn record_of(outcome: Option<CattleUpdate>) -> TargetRecord {
    match outcome {
        Some(u) => TargetRecord::Update(u),
        None => TargetRecord::Failed,
    }
}

/// The records of a whole cycle, one per outcome, each from its own
/// outcome alone.
pub open spec fn records_of(outcomes: Seq<Option<CattleUpdate>>) -> Seq<TargetRecord> {
    outcomes.map_values(|o: Option<CattleUpdate>| record_of(o))
}

/// Poll cycle isolation: a cycle records exactly one entry per target, and
/// each entry is determined by that target's own outcome alone — a
/// successful target's update is recorded even when another target failed,
/// and a failed target leaves an explicit `Failed` record, not a gap.
pub proof fn lemma_poll_cycle_isolation(outcomes: Seq<Option<CattleUpdate>>)
    ensures
        records_of(outcomes).len() == outcomes.len(),
        forall|i: int|
            0 <= i < outcomes.len() ==> #[trigger] records_of(outcomes)[i] == record_of(
                outcomes[i],
            ),
{
}

/// One poll cycle of the Herder: the targets in order, and the records of
/// those already polled this cycle.
pub struct PollCycle {
    /// The configured targets, in polling order.
    pub targets: Vec<String>,

    /// One record per target already polled.
    pub records: Vec<TargetRecord>,
}

impl PollCycle {
    /// No target polled more often than once per cycle.
    pub open spec fn wf(&self) -> bool {
        self.records@.len() <= self.targets@.len()
    }

    /// A fresh cycle over the configured targets.
    pub fn new(targets: Vec<String>) -> (r: Self)
        ensures
            r.targets@ == targets@,
            r.records@ == Seq::<TargetRecord>::empty(),
            r.wf(),
    {
        PollCycle { targets, records: Vec::new() }
    }

    /// Index of the target to poll next.
    pub fn next_target_index(&self) -> (r: usize)
        ensures
            r == self.records@.len(),
    {
        self.records.len()
    }

    /// Whether every target has a record this cycle.
    pub fn cycle_done(&self) -> (r: bool)
        requires
            self.wf(),
        ensures
            r <==> self.records@.len() == self.targets@.len(),
    {
        self.records.len() == self.targets.len()
    }

    /// Record the outcome of polling the current target and move on to the
    /// next — an unreachable target yields an explicit `Failed` record and
    /// never blocks the rest of the cycle.
    pub fn record(&mut self, outcome: Option<CattleUpdate>)
        requires
            old(self).wf(),
            old(self).records@.len() < old(self).targets@.len(),
        ensures
            final(self).targets@ == old(self).targets@,
            final(self).records@ == old(self).records@.push(record_of(outcome)),
            final(self).wf(),
    {
        match outcome {
            Some(u) => self.records.push(TargetRecord::Update(u)),
            None => self.records.push(TargetRecord::Failed),
        }
    }
}

} // verus!
