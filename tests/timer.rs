use pomocop::{
    next_step, resolve, wake_action, NextStep, Phase, PhaseMessage, PhaseResult, PhaseType,
    Received, WakeAction, WakeSource,
};
use tokio::sync::oneshot::channel;
use uuid::Uuid;

/// The outcome of a phase that has ended.
fn outcome(phase: Phase) -> Option<PhaseResult> {
    phase.try_resolve().ok()
}

/// A phase that is still running, after one look at it.
fn pending(phase: Phase) -> Phase {
    match phase.try_resolve() {
        Ok(result) => panic!("phase ended early: {:?}", result),
        Err(phase) => phase,
    }
}

#[test]
fn past_deadline_completes_on_first_poll() {
    let (send, recv) = channel::<PhaseMessage>();
    let phase = Phase::new(Uuid::nil(), PhaseType::Work(1), 0, recv);
    assert_eq!(outcome(phase), Some(PhaseResult::Completed(PhaseType::Work(1))));
    drop(send);
}

#[test]
fn future_deadline_stays_pending() {
    let (send, recv) = channel::<PhaseMessage>();
    let end = chrono::Utc::now().timestamp_millis() + 3_600_000;
    let phase = Phase::new(Uuid::nil(), PhaseType::Short(5), end, recv);
    let phase = pending(phase);
    let phase = pending(phase);
    assert_eq!(phase.end(), end);
    drop(send);
}

#[test]
fn skip_before_deadline_resolves_skipped() {
    let (send, recv) = channel::<PhaseMessage>();
    let end = chrono::Utc::now().timestamp_millis() + 3_600_000;
    let phase = Phase::new(Uuid::nil(), PhaseType::Long(15), end, recv);
    assert!(send.send(PhaseMessage::Skip).is_ok());
    assert_eq!(outcome(phase), Some(PhaseResult::Skipped(PhaseType::Long(15))));
}

#[test]
fn stop_before_deadline_resolves_stopped() {
    let (send, recv) = channel::<PhaseMessage>();
    let end = chrono::Utc::now().timestamp_millis() + 3_600_000;
    let phase = Phase::new(Uuid::nil(), PhaseType::Work(25), end, recv);
    assert!(send.send(PhaseMessage::Stop).is_ok());
    assert_eq!(outcome(phase), Some(PhaseResult::Stopped(PhaseType::Work(25))));
}

#[test]
fn dropped_sender_resolves_failed() {
    let (send, recv) = channel::<PhaseMessage>();
    let phase = Phase::new(Uuid::nil(), PhaseType::Work(25), i64::MAX, recv);
    drop(send);
    assert_eq!(outcome(phase), Some(PhaseResult::Failed(PhaseType::Work(25))));
}

#[test]
fn resolve_decides_each_case() {
    let kind = PhaseType::Short(5);
    assert_eq!(resolve(Received::Empty, 99, 100, kind), None);
    assert_eq!(
        resolve(Received::Empty, 100, 100, kind),
        Some(PhaseResult::Completed(kind))
    );
    assert_eq!(
        resolve(Received::Empty, 101, 100, kind),
        Some(PhaseResult::Completed(kind))
    );
    assert_eq!(
        resolve(Received::Message(PhaseMessage::Skip), 99, 100, kind),
        Some(PhaseResult::Skipped(kind))
    );
    assert_eq!(
        resolve(Received::Message(PhaseMessage::Stop), 200, 100, kind),
        Some(PhaseResult::Stopped(kind))
    );
    assert_eq!(
        resolve(Received::Closed, 0, 100, kind),
        Some(PhaseResult::Failed(kind))
    );
}

#[test]
fn next_step_after_each_result() {
    let kind = PhaseType::Work(25);
    assert_eq!(next_step(PhaseResult::Completed(kind)), NextStep::Advance(kind));
    assert_eq!(next_step(PhaseResult::Skipped(kind)), NextStep::Advance(kind));
    assert_eq!(next_step(PhaseResult::Stopped(kind)), NextStep::Stopped);
    assert_eq!(next_step(PhaseResult::Failed(kind)), NextStep::Failed);
}

#[test]
fn wake_source_kept_only_while_waiting() {
    assert_eq!(wake_action(WakeSource::Waiting), WakeAction::Keep);
    assert_eq!(wake_action(WakeSource::Absent), WakeAction::Spawn);
    assert_eq!(wake_action(WakeSource::Fired), WakeAction::Spawn);
    assert_eq!(wake_action(WakeSource::Gone), WakeAction::Spawn);
}
