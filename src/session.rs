//! A session: the phases it has run, the one running now, and its members.
use vstd::prelude::*;
use std::collections::HashSet;
use tokio::sync::oneshot::Sender;
use uuid::Uuid;

use crate::clock::{now_millis, CLOCK_LIMIT_MS, MINUTE_MS};
use crate::config::{
    lemma_phase_within_longest, lemma_span_bounds, lemma_until_long_bound, ConfigError, PhaseType,
    SessionConfig,
};
use crate::timer::{send_message, Phase, PhaseMessage, PhaseView, SignalLog};

verus! {

broadcast use vstd::std_specs::hash::group_hash_axioms;

/// Relies on uuid's `Uuid::new_v4`: a random identifier, of which nothing can
/// be promised.
pub assume_specification[ Uuid::new_v4 ]() -> Uuid;

/// Why a session could not act on a request.
#[derive(Debug, Clone, Copy, PartialEq, Eq, Structural)]
pub enum SessionError {
    /// There is no currently active phase.
    NotActive,
}

/// The phase that a session is running, as the contracts see it.
pub struct Running {
    pub phase_type: PhaseType,
    /// When the phase started, in milliseconds since the Unix epoch.
    pub started: int,
}

/// What a session is, as the contracts see it.
pub struct SessionView {
    pub id: Uuid,
    pub config: SessionConfig,
    /// The index of the phase that the next advance starts.
    pub next_index: nat,
    /// The running phase, if there is one.
    pub running: Option<Running>,
    pub members: Set<u64>,
    /// The messages sent to the session's phases, in order, each with
    /// whether the phase took it.
    pub signals: Seq<(PhaseMessage, bool)>,
}

/// A handle on a running phase: when it started, what it is, and the sender
/// through which the session can end it early.
pub struct PhaseHandle {
    started: i64,
    phase_type: PhaseType,
    send: Sender<PhaseMessage>,
}

/// A session, running one phase at a time.
pub struct Session {
    id: Uuid,
    members: HashSet<u64>,
    config: SessionConfig,
    current_phase: Option<PhaseHandle>,
    next_index: usize,
    signals: SignalLog,
}

/// What a session reports about itself.
#[derive(Debug, Clone, Copy, PartialEq, Eq, Structural)]
pub enum SessionStatus {
    /// No phase is running.
    NoSession,
    /// A phase is running. Durations are in milliseconds, and `long_at` in
    /// milliseconds since the Unix epoch.
    Running {
        phase_type: PhaseType,
        phase_elapsed: i64,
        phase_remaining: i64,
        next_type: PhaseType,
        long_at: i64,
    },
}

impl View for Session {
    type V = SessionView;

    closed spec fn view(&self) -> SessionView {
        SessionView {
            id: self.id,
            config: self.config,
            next_index: self.next_index as nat,
            running: match self.current_phase {
                Some(h) => Some(Running { phase_type: h.phase_type, started: h.started as int }),
                None => None,
            },
            members: self.members@,
            signals: self.signals@,
        }
    }
}

impl SessionView {
    /// The configuration can drive phases, and a running phase started at a
    /// time that the clock can read and lasts no longer than the
    /// configuration's longest length.
    pub open spec fn wf(self) -> bool {
        &&& self.config.is_valid()
        &&& self.running matches Some(h) ==> 0 <= h.started < CLOCK_LIMIT_MS
            && h.phase_type.minutes() <= self.config.longest()
    }

}

/// The length of a phase in milliseconds.
pub open spec fn length_ms(phase_type: PhaseType) -> int {
    phase_type.minutes() * MINUTE_MS
}

/// The status of session `s` at time `now`: for a running phase, the time
/// since it started, the time left of its length, the phase that comes next,
/// and when the next long break starts.
pub open spec fn status_spec(s: SessionView, now: int) -> SessionStatus {
    match s.running {
        None => SessionStatus::NoSession,
        Some(h) => {
            let elapsed = now - h.started;
            let remaining = length_ms(h.phase_type) - elapsed;
            SessionStatus::Running {
                phase_type: h.phase_type,
                phase_elapsed: elapsed as i64,
                phase_remaining: remaining as i64,
                next_type: s.config.phase_at_spec(s.next_index),
                long_at: (now + remaining + s.config.minutes_until_long(s.next_index) * MINUTE_MS)
                    as i64,
            }
        },
    }
}

/// What a stop reports, given whether the running phase took the message:
/// a stop that is lost is an error.
pub open spec fn stop_outcome(delivered: bool) -> Result<(), SessionError> {
    if delivered {
        Ok(())
    } else {
        Err(SessionError::NotActive)
    }
}

/// What a stop reports, given whether the running phase took the message.
pub fn stop_result(delivered: bool) -> (r: Result<(), SessionError>)
    ensures
        r == stop_outcome(delivered),
{
    if delivered {
        Ok(())
    } else {
        Err(SessionError::NotActive)
    }
}

impl SessionConfig {
    /// Make an idle session of this configuration, or say why the
    /// configuration cannot drive one.
    pub fn build(self) -> (r: Result<Session, ConfigError>)
        ensures
            r is Ok <==> self.is_valid(),
            match r {
                Ok(s) => {
                    &&& s@.wf()
                    &&& s@.config == self
                    &&& s@.next_index == 0
                    &&& s@.running is None
                    &&& s@.members == Set::<u64>::empty()
                    &&& s@.signals == Seq::<(PhaseMessage, bool)>::empty()
                },
                Err(e) => self.check_spec() == Err::<(), ConfigError>(e),
            },
    {
        match self.check() {
            Ok(()) => Ok(Session::from_config(self)),
            Err(e) => Err(e),
        }
    }
}

impl Session {
    /// `post` and `phase` are what advancing `pre` gives: the phase at the
    /// next index starts now, in place of any phase that was running.
    pub open spec fn advanced(pre: SessionView, post: SessionView, phase: PhaseView) -> bool {
        &&& post.wf()
        &&& post.id == pre.id
        &&& post.config == pre.config
        &&& post.members == pre.members
        &&& post.signals == pre.signals
        &&& post.next_index == pre.next_index + 1
        &&& phase.session == pre.id
        &&& phase.phase_type == pre.config.phase_at_spec(pre.next_index)
        &&& post.running matches Some(h) && h.phase_type == phase.phase_type && phase.end == h.started
            + length_ms(phase.phase_type)
    }

    /// `post` and `r` are what skipping in `pre` gives: a running phase is
    /// sent a skip and is no longer the session's, and its type comes back
    /// whether or not it took the message; with none running, nothing changes.
    pub open spec fn skipped(
        pre: SessionView,
        post: SessionView,
        r: Result<PhaseType, SessionError>,
    ) -> bool {
        match pre.running {
            Some(h) => {
                &&& r == Ok::<PhaseType, SessionError>(h.phase_type)
                &&& post.signals == pre.signals.push((PhaseMessage::Skip, post.signals.last().1))
                &&& post == (SessionView { running: None, signals: post.signals, ..pre })
            },
            None => r == Err::<PhaseType, SessionError>(SessionError::NotActive) && post == pre,
        }
    }

    /// `post` and `r` are what stopping in `pre` gives: a running phase is
    /// sent a stop and is no longer the session's, and the stop succeeds
    /// exactly when the phase took it; with none running, nothing changes.
    pub open spec fn stopped(pre: SessionView, post: SessionView, r: Result<(), SessionError>) -> bool {
        match pre.running {
            Some(_) => {
                &&& post.signals == pre.signals.push((PhaseMessage::Stop, post.signals.last().1))
                &&& r == stop_outcome(post.signals.last().1)
                &&& post == (SessionView { running: None, signals: post.signals, ..pre })
            },
            None => r == Err::<(), SessionError>(SessionError::NotActive) && post == pre,
        }
    }

    /// `post` and `r` are what adding `user` to `pre` gives.
    pub open spec fn added(pre: SessionView, post: SessionView, user: u64, r: bool) -> bool {
        &&& post == (SessionView { members: pre.members.insert(user), ..pre })
        &&& r == !pre.members.contains(user)
    }

    /// `post` and `r` are what removing `user` from `pre` gives.
    pub open spec fn removed(pre: SessionView, post: SessionView, user: u64, r: bool) -> bool {
        &&& post == (SessionView { members: pre.members.remove(user), ..pre })
        &&& r == pre.members.contains(user)
    }

    /// Create a session from the given configuration, without starting it.
    fn from_config(config: SessionConfig) -> (r: Self)
        requires
            config.is_valid(),
        ensures
            r@.config == config,
            r@.next_index == 0,
            r@.running is None,
            r@.members == Set::<u64>::empty(),
            r@.signals == Seq::<(PhaseMessage, bool)>::empty(),
    {
        Session {
            id: Uuid::new_v4(),
            members: HashSet::new(),
            config,
            current_phase: None,
            next_index: 0,
            signals: SignalLog::new(),
        }
    }

    /// Unconditionally advance to the next phase and return it, whether or not
    /// a phase is running already.
    ///
    /// This drops the handle of any running phase, after which that phase can
    /// no longer be skipped or stopped: where a phase may still be running,
    /// `skip` or `stop` it first.
    pub fn advance(&mut self) -> (r: Phase)
        requires
            old(self)@.wf(),
            old(self)@.next_index < usize::MAX,
        ensures
            Self::advanced(old(self)@, final(self)@, r@),
    {
        let (send, recv) = tokio::sync::oneshot::channel();
        let phase_type = self.config.phase_at(self.next_index);
        proof {
            lemma_phase_within_longest(self.config, self.next_index as nat);
            lemma_span_bounds(self.config);
        }
        self.next_index = self.next_index + 1;
        let started = now_millis();
        let end = started + (phase_type.length() as i64) * MINUTE_MS;
        self.current_phase = Some(PhaseHandle { started, phase_type, send });
        Phase::new(self.id, phase_type, end, recv)
    }

    /// Skip the currently running phase, and return its type.
    ///
    /// Returns `SessionError::NotActive` if there is no currently running
    /// phase. A phase that has just ended on its own cannot take the message;
    /// that race is expected, and the skip still succeeds.
    pub fn skip(&mut self) -> (r: Result<PhaseType, SessionError>)
        ensures
            Self::skipped(old(self)@, final(self)@, r),
    {
        match self.current_phase.take() {
            Some(handle) => {
                let phase_type = handle.phase_type;
                send_message(&mut self.signals, handle.send, PhaseMessage::Skip);
                Ok(phase_type)
            },
            None => Err(SessionError::NotActive),
        }
    }

    /// Stop the session by stopping the currently running phase.
    ///
    /// Returns `SessionError::NotActive` if there is no currently running
    /// phase, or if the phase could not take the message (it has most likely
    /// ended on its own): a stop must not be lost without a word.
    pub fn stop(&mut self) -> (r: Result<(), SessionError>)
        ensures
            Self::stopped(old(self)@, final(self)@, r),
    {
        match self.current_phase.take() {
            Some(handle) => {
                let delivered = send_message(&mut self.signals, handle.send, PhaseMessage::Stop);
                stop_result(delivered)
            },
            None => Err(SessionError::NotActive),
        }
    }

    /// The status of this session at time `now`, in milliseconds since the
    /// Unix epoch.
    pub fn status_at(&self, now: i64) -> (r: SessionStatus)
        requires
            self@.wf(),
            0 <= now < CLOCK_LIMIT_MS,
        ensures
            r == status_spec(self@, now as int),
    {
        match &self.current_phase {
            Some(handle) => {
                proof {
                    lemma_span_bounds(self.config);
                }
                let elapsed = now - handle.started;
                let remaining = (handle.phase_type.length() as i64) * MINUTE_MS - elapsed;
                let next_type = self.config.phase_at(self.next_index);
                proof {
                    let c = self.config;
                    let i = self.next_index as nat;
                    lemma_span_bounds(c);
                    lemma_until_long_bound(c, i);
                    let steps = c.steps_to_long(i) as int;
                    let l = c.longest() as int;
                    assert(steps * l <= (c.period() - 1) * l) by (nonlinear_arith)
                        requires
                            steps <= c.period() - 1,
                            l >= 0,
                    ;
                }
                let until = self.config.until_long(self.next_index);
                let long_at = now + remaining + (until as i64) * MINUTE_MS;
                SessionStatus::Running {
                    phase_type: handle.phase_type,
                    phase_elapsed: elapsed,
                    phase_remaining: remaining,
                    next_type,
                    long_at,
                }
            },
            None => SessionStatus::NoSession,
        }
    }

    /// The status of this session now.
    pub fn status(&self) -> (r: SessionStatus)
        requires
            self@.wf(),
        ensures
            exists|now: int| 0 <= now < CLOCK_LIMIT_MS && r == status_spec(self@, now),
    {
        let now = now_millis();
        let r = self.status_at(now);
        assert(r == status_spec(self@, now as int));
        r
    }

    /// Get the ID of this session.
    pub fn id(&self) -> (r: Uuid)
        ensures
            r == self@.id,
    {
        self.id
    }

    /// Get the config of this session.
    pub fn config(&self) -> (r: &SessionConfig)
        ensures
            *r == self@.config,
    {
        &self.config
    }

    /// The index of the phase that the next advance starts.
    pub fn next_index(&self) -> (r: usize)
        ensures
            r == self@.next_index,
    {
        self.next_index
    }

    /// Add a user to the set of members of this session. Returns whether the
    /// user was added, that is whether the user was not a member already.
    pub fn add_member(&mut self, user: u64) -> (r: bool)
        ensures
            Self::added(old(self)@, final(self)@, user, r),
    {
        self.members.insert(user)
    }

    /// Remove a user from the set of members of this session. Returns whether
    /// the user was a member.
    pub fn remove_member(&mut self, user: u64) -> (r: bool)
        ensures
            Self::removed(old(self)@, final(self)@, user, r),
    {
        self.members.remove(&user)
    }

    /// Get the set of members of this session.
    pub fn members(&self) -> (r: &HashSet<u64>)
        ensures
            r@ == self@.members,
    {
        &self.members
    }
}

/// Advancing twice leaves only the second phase reachable: a skip that follows
/// is the one message sent since, it ends the second phase, whose type
/// differs from the first's, and it leaves the session idle.
pub proof fn lemma_advance_supersedes(
    s0: SessionView,
    s1: SessionView,
    first: PhaseView,
    s2: SessionView,
    second: PhaseView,
    s3: SessionView,
    r: Result<PhaseType, SessionError>,
)
    requires
        Session::advanced(s0, s1, first),
        Session::advanced(s1, s2, second),
        Session::skipped(s2, s3, r),
    ensures
        r == Ok::<PhaseType, SessionError>(second.phase_type),
        first.phase_type != second.phase_type,
        s3.running is None,
        s3.signals.len() == s0.signals.len() + 1,
        s3.signals.last().0 == PhaseMessage::Skip,
{
    assert((s0.next_index + 1) % 2 != s0.next_index % 2);
}

/// Adding a user who is not a member returns `true`; adding the same user
/// again returns `false`.
pub proof fn lemma_add_member_once(
    s0: SessionView,
    user: u64,
    s1: SessionView,
    r1: bool,
    s2: SessionView,
    r2: bool,
)
    requires
        !s0.members.contains(user),
        Session::added(s0, s1, user, r1),
        Session::added(s1, s2, user, r2),
    ensures
        r1,
        !r2,
{
}

/// Removing a member returns `true`; removing the same user again returns
/// `false`.
pub proof fn lemma_remove_member_once(
    s0: SessionView,
    user: u64,
    s1: SessionView,
    r1: bool,
    s2: SessionView,
    r2: bool,
)
    requires
        s0.members.contains(user),
        Session::removed(s0, s1, user, r1),
        Session::removed(s1, s2, user, r2),
    ensures
        r1,
        !r2,
{
}

/// An idle session reports no session; for a running phase, the time elapsed
/// and the time remaining add up to the phase's length.
pub proof fn lemma_status_adds_up(s: SessionView, now: int)
    requires
        s.wf(),
        0 <= now < CLOCK_LIMIT_MS,
    ensures
        s.running is None ==> status_spec(s, now) == SessionStatus::NoSession,
        s.running matches Some(h) ==> status_spec(s, now) matches SessionStatus::Running {
            phase_type,
            phase_elapsed,
            phase_remaining,
            ..
        } && phase_type == h.phase_type && phase_elapsed + phase_remaining == length_ms(
            h.phase_type,
        ),
{
    lemma_span_bounds(s.config);
}

} // verus!
