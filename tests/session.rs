use pomocop::clock::MINUTE_MS;
use pomocop::session::stop_result;
use pomocop::{Phase, PhaseResult, PhaseType, Session, SessionConfig, SessionError, SessionStatus};

/// The outcome of a phase that has ended.
fn outcome(phase: Phase) -> Option<PhaseResult> {
    phase.try_resolve().ok()
}

/// A phase that is still running, after one look at it.
fn pending(phase: Phase) -> Phase {
    match phase.try_resolve() {
        Ok(result) => panic!("phase ended early: {:?}", result),
        Err(phase) => phase,
    }
}

fn default_session() -> Session {
    SessionConfig::default().build().unwrap()
}

fn now_ms() -> i64 {
    chrono::Utc::now().timestamp_millis()
}

#[test]
fn new_session_is_idle() {
    let session = default_session();
    assert_eq!(session.next_index(), 0);
    assert_eq!(*session.config(), SessionConfig::default());
    assert!(session.members().is_empty());
    assert_eq!(session.status(), SessionStatus::NoSession);
}

#[test]
fn sessions_get_distinct_ids() {
    let a = default_session();
    let b = default_session();
    assert_ne!(a.id(), b.id());
}

#[test]
fn skip_without_phase_is_not_active() {
    let mut session = default_session();
    assert_eq!(session.skip(), Err(SessionError::NotActive));
}

#[test]
fn stop_without_phase_is_not_active() {
    let mut session = default_session();
    assert_eq!(session.stop(), Err(SessionError::NotActive));
}

#[test]
fn advance_runs_phases_in_order() {
    let mut session = default_session();
    let first = session.advance();
    assert_eq!(*first.phase_type(), PhaseType::Work(25));
    assert_eq!(first.session(), session.id());
    assert_eq!(session.next_index(), 1);
    let second = session.advance();
    assert_eq!(*second.phase_type(), PhaseType::Short(5));
    assert_eq!(session.next_index(), 2);
}

#[test]
fn advance_sets_deadline_from_clock() {
    let mut session = default_session();
    let before = now_ms();
    let phase = session.advance();
    let after = now_ms();
    assert!(phase.end() >= before + 25 * MINUTE_MS);
    assert!(phase.end() <= after + 25 * MINUTE_MS);
}

#[test]
fn skip_ends_running_phase_as_skipped() {
    let mut session = default_session();
    let phase = session.advance();
    let phase = pending(phase);
    assert_eq!(session.skip(), Ok(PhaseType::Work(25)));
    assert_eq!(outcome(phase), Some(PhaseResult::Skipped(PhaseType::Work(25))));
    assert_eq!(session.skip(), Err(SessionError::NotActive));
    assert_eq!(session.status(), SessionStatus::NoSession);
}

#[test]
fn stop_ends_running_phase_as_stopped() {
    let mut session = default_session();
    let phase = session.advance();
    assert_eq!(session.stop(), Ok(()));
    assert_eq!(outcome(phase), Some(PhaseResult::Stopped(PhaseType::Work(25))));
    assert_eq!(session.stop(), Err(SessionError::NotActive));
}

#[test]
fn stop_after_phase_gone_is_not_active() {
    let mut session = default_session();
    let phase = session.advance();
    drop(phase);
    assert_eq!(session.stop(), Err(SessionError::NotActive));
    assert_eq!(session.stop(), Err(SessionError::NotActive));
}

#[test]
fn skip_after_phase_gone_still_succeeds() {
    let mut session = default_session();
    let phase = session.advance();
    drop(phase);
    assert_eq!(session.skip(), Ok(PhaseType::Work(25)));
    assert_eq!(session.skip(), Err(SessionError::NotActive));
}

#[test]
fn second_advance_supersedes_first() {
    let mut session = default_session();
    let first = session.advance();
    let second = session.advance();
    assert_eq!(outcome(first), Some(PhaseResult::Failed(PhaseType::Work(25))));
    assert_eq!(session.skip(), Ok(PhaseType::Short(5)));
    assert_eq!(outcome(second), Some(PhaseResult::Skipped(PhaseType::Short(5))));
}

#[test]
fn members_join_and_leave() {
    let mut session = default_session();
    assert!(session.add_member(42));
    assert!(!session.add_member(42));
    assert!(session.add_member(7));
    assert!(session.members().contains(&42));
    assert_eq!(session.members().len(), 2);
    assert!(session.remove_member(42));
    assert!(!session.remove_member(42));
    assert!(!session.members().contains(&42));
    assert!(!session.remove_member(1000));
    assert_eq!(session.members().len(), 1);
}

#[test]
fn status_while_running() {
    let mut session = default_session();
    let phase = session.advance();
    match session.status() {
        SessionStatus::Running {
            phase_type,
            phase_elapsed,
            phase_remaining,
            next_type,
            long_at,
        } => {
            assert_eq!(phase_type, PhaseType::Work(25));
            assert_eq!(phase_elapsed + phase_remaining, 25 * MINUTE_MS);
            assert!(phase_elapsed >= 0);
            assert!(phase_elapsed < 60_000);
            assert_eq!(next_type, PhaseType::Short(5));
            assert_eq!(long_at, phase.end() + 90 * MINUTE_MS);
        }
        SessionStatus::NoSession => panic!("a phase is running"),
    }
}

#[test]
fn status_at_exact_values() {
    let mut session = default_session();
    let phase = session.advance();
    let started = phase.end() - 25 * MINUTE_MS;
    assert_eq!(
        session.status_at(started + 1_000),
        SessionStatus::Running {
            phase_type: PhaseType::Work(25),
            phase_elapsed: 1_000,
            phase_remaining: 25 * MINUTE_MS - 1_000,
            next_type: PhaseType::Short(5),
            long_at: started + 25 * MINUTE_MS + 90 * MINUTE_MS,
        }
    );
    assert_eq!(
        session.status_at(started + 30 * MINUTE_MS),
        SessionStatus::Running {
            phase_type: PhaseType::Work(25),
            phase_elapsed: 30 * MINUTE_MS,
            phase_remaining: -5 * MINUTE_MS,
            next_type: PhaseType::Short(5),
            long_at: started + 25 * MINUTE_MS + 90 * MINUTE_MS,
        }
    );
}

#[test]
fn status_before_long_break() {
    let config = SessionConfig::default().interval(1);
    let mut session = config.build().unwrap();
    let phase = session.advance();
    let started = phase.end() - 25 * MINUTE_MS;
    assert_eq!(
        session.status_at(started),
        SessionStatus::Running {
            phase_type: PhaseType::Work(25),
            phase_elapsed: 0,
            phase_remaining: 25 * MINUTE_MS,
            next_type: PhaseType::Long(15),
            long_at: started + 25 * MINUTE_MS,
        }
    );
}

#[test]
fn status_idle_after_stop() {
    let mut session = default_session();
    let _phase = session.advance();
    assert_eq!(session.stop(), Ok(()));
    assert_eq!(session.status_at(0), SessionStatus::NoSession);
}

#[test]
fn one_minute_scenario() {
    let config = SessionConfig::default().work(1).short(1).long(1).interval(1);
    let mut session = config.build().unwrap();
    let first = session.advance();
    assert_eq!(session.skip(), Ok(PhaseType::Work(1)));
    assert_eq!(outcome(first), Some(PhaseResult::Skipped(PhaseType::Work(1))));
    let second = session.advance();
    assert_eq!(*second.phase_type(), PhaseType::Long(1));
}

#[test]
fn stop_result_by_delivery() {
    assert_eq!(stop_result(true), Ok(()));
    assert_eq!(stop_result(false), Err(SessionError::NotActive));
}
