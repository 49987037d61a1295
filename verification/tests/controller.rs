use cattle_herd::config::CattlePush;
use cattle_herd::controller::{
    Action, PollCycle, PullEvent, PullSession, PushController, PushEvent, SessionState,
    TargetRecord,
};
use cattle_herd::message::CattleUpdate;

fn push_config() -> CattlePush {
    CattlePush {
        server: "10.0.0.5".to_string(),
        port: 6543,
        interval_seconds: 10,
    }
}

fn update(cpu: u64) -> CattleUpdate {
    CattleUpdate {
        cpu_utilization: cpu,
        available_memory_bytes: 1,
        available_disk_bytes: 2,
        running_processes: 3,
        most_intense_process_name: b"p".to_vec(),
        most_intense_process_owner: b"o".to_vec(),
    }
}

#[test]
fn push_steady_emits_one_update_per_tick() {
    let mut c = PushController::new(push_config());
    assert_eq!(c.interval_seconds, 10);
    assert_eq!(c.state, SessionState::Idle);
    assert_eq!(c.step(PushEvent::Start), Action::Dial);
    assert_eq!(c.step(PushEvent::DialSucceeded), Action::SendPublicKey);
    assert_eq!(c.step(PushEvent::HandshakeAcked), Action::SendInitialInfo);
    assert_eq!(c.state, SessionState::Steady);
    // One SendUpdate per interval tick while connected.
    assert_eq!(c.step(PushEvent::Tick), Action::SendUpdate);
    assert_eq!(c.step(PushEvent::Tick), Action::SendUpdate);
    assert_eq!(c.step(PushEvent::Tick), Action::SendUpdate);
}

#[test]
fn push_reconnect_resends_initial_before_updates() {
    let mut c = PushController::new(push_config());
    c.step(PushEvent::Start);
    c.step(PushEvent::DialSucceeded);
    c.step(PushEvent::HandshakeAcked);
    assert_eq!(c.step(PushEvent::Tick), Action::SendUpdate);

    // The connection drops mid-Steady: the controller faults and backs off.
    assert_eq!(c.step(PushEvent::ConnectionLost), Action::StartBackoff);
    assert_eq!(c.state, SessionState::Faulted);
    // Zero updates during the backoff window.
    assert_eq!(c.step(PushEvent::Tick), Action::Ignore);
    assert_eq!(c.step(PushEvent::Tick), Action::Ignore);
    // Reconnect re-enters Connecting and replays the whole handshake:
    // SendInitialInfo is re-sent before any further SendUpdate.
    assert_eq!(c.step(PushEvent::BackoffElapsed), Action::Dial);
    assert_eq!(c.state, SessionState::Connecting);
    assert_eq!(c.step(PushEvent::DialSucceeded), Action::SendPublicKey);
    assert_eq!(c.step(PushEvent::HandshakeAcked), Action::SendInitialInfo);
    assert_eq!(c.step(PushEvent::Tick), Action::SendUpdate);
}

#[test]
fn push_backoff_doubles_and_caps() {
    let mut c = PushController::new(push_config());
    c.step(PushEvent::Start);
    let mut seen: Vec<u32> = Vec::new();
    for _ in 0..8 {
        assert_eq!(c.step(PushEvent::DialFailed), Action::StartBackoff);
        seen.push(c.backoff_seconds());
        assert_eq!(c.step(PushEvent::BackoffElapsed), Action::Dial);
    }
    assert_eq!(seen, vec![2, 4, 8, 16, 32, 64, 64, 64]);
}

#[test]
fn push_backoff_resets_when_steady() {
    let mut c = PushController::new(push_config());
    c.step(PushEvent::Start);
    c.step(PushEvent::DialFailed);
    c.step(PushEvent::BackoffElapsed);
    c.step(PushEvent::DialSucceeded);
    c.step(PushEvent::HandshakeAcked);
    assert_eq!(c.backoff_seconds(), 1);
}

#[test]
fn push_stop_closes_for_good() {
    let mut c = PushController::new(push_config());
    c.step(PushEvent::Start);
    assert_eq!(c.step(PushEvent::Stop), Action::Close);
    assert_eq!(c.state, SessionState::Closing);
    assert_eq!(c.step(PushEvent::Tick), Action::Ignore);
    assert_eq!(c.step(PushEvent::BackoffElapsed), Action::Ignore);
}

#[test]
fn pull_session_answers_requests() {
    let mut s = PullSession::new();
    assert_eq!(s.step(PullEvent::Accepted), Action::SendPublicKey);
    assert_eq!(s.step(PullEvent::HandshakeAcked), Action::SendInitialInfo);
    assert_eq!(s.state, SessionState::Steady);
    assert_eq!(s.step(PullEvent::UpdateRequested), Action::SendUpdate);
    assert_eq!(s.step(PullEvent::UpdateRequested), Action::SendUpdate);
}

#[test]
fn pull_session_closes_on_bad_message() {
    let mut s = PullSession::new();
    s.step(PullEvent::Accepted);
    s.step(PullEvent::HandshakeAcked);
    assert_eq!(s.step(PullEvent::BadMessageReceived), Action::Close);
    assert_eq!(s.state, SessionState::Closing);
    assert_eq!(s.step(PullEvent::UpdateRequested), Action::Ignore);
}

#[test]
fn poll_cycle_records_failure_without_blocking_others() {
    let targets = vec!["one".to_string(), "two".to_string(), "three".to_string()];
    let mut cycle = PollCycle::new(targets);
    assert!(!cycle.cycle_done());
    assert_eq!(cycle.next_target_index(), 0);
    cycle.record(Some(update(100)));
    // The second target is unreachable: an explicit failure, not a gap.
    assert_eq!(cycle.next_target_index(), 1);
    cycle.record(None);
    assert_eq!(cycle.next_target_index(), 2);
    cycle.record(Some(update(300)));
    assert!(cycle.cycle_done());

    assert_eq!(cycle.records.len(), 3);
    match &cycle.records[0] {
        TargetRecord::Update(u) => assert_eq!(u.cpu_utilization, 100),
        TargetRecord::Failed => panic!("target one answered"),
    }
    match &cycle.records[1] {
        TargetRecord::Failed => {}
        TargetRecord::Update(_) => panic!("target two was unreachable"),
    }
    match &cycle.records[2] {
        TargetRecord::Update(u) => assert_eq!(u.cpu_utilization, 300),
        TargetRecord::Failed => panic!("target three answered"),
    }
}
