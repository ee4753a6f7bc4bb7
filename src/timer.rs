//! A running phase: its deadline, and the channel through which its session
//! asks it to end early.
use vstd::prelude::*;
use tokio::sync::oneshot::{Receiver, Sender};
use uuid::Uuid;

use crate::clock::{now_millis, CLOCK_LIMIT_MS};
use crate::config::PhaseType;

verus! {

#[verifier::external_type_specification]
#[verifier::external_body]
pub struct ExUuid(Uuid);

#[verifier::external_type_specification]
#[verifier::external_body]
#[verifier::reject_recursive_types(T)]
pub struct ExSender<T>(Sender<T>);

#[verifier::external_type_specification]
#[verifier::external_body]
#[verifier::reject_recursive_types(T)]
pub struct ExReceiver<T>(Receiver<T>);

/// The error of awaiting a receiver whose sender is gone; it appears in the
/// receiver's `Future` impl, and nothing here uses it.
#[verifier::external_type_specification]
#[verifier::external_body]
pub struct ExRecvError(tokio::sync::oneshot::error::RecvError);

/// Relies on tokio's `oneshot::channel`: a connected sender and receiver.
pub assume_specification<T>[ tokio::sync::oneshot::channel::<T> ]() -> (Sender<T>, Receiver<T>);

/// Relies on tokio's `oneshot::Sender::send`: hands the value to the receiver,
/// or gives it back where the receiver is gone.
pub assume_specification<T>[ Sender::<T>::send ](sender: Sender<T>, t: T) -> (r: Result<(), T>)
    ensures
        r matches Err(v) ==> v == t,
;

/// Messages that a session sends to its running phase.
#[derive(Debug, Clone, Copy, PartialEq, Eq, Structural)]
pub enum PhaseMessage {
    /// End the phase as skipped.
    Skip,
    /// End the phase, and with it the session.
    Stop,
}

/// What a look at a phase's channel found.
#[derive(Debug, Clone, Copy, PartialEq, Eq, Structural)]
pub enum Received {
    /// The session sent this message.
    Message(PhaseMessage),
    /// Nothing has been sent yet.
    Empty,
    /// The sending half is gone without a message.
    Closed,
}

/// The messages that a session has sent to its phases, in order, each with
/// whether the phase took it. Only `send_message` adds to it.
pub struct SignalLog {
    sent: Ghost<Seq<(PhaseMessage, bool)>>,
}

impl View for SignalLog {
    type V = Seq<(PhaseMessage, bool)>;

    closed spec fn view(&self) -> Seq<(PhaseMessage, bool)> {
        self.sent@
    }
}

impl SignalLog {
    pub fn new() -> (r: SignalLog)
        ensures
            r@ == Seq::<(PhaseMessage, bool)>::empty(),
    {
        SignalLog { sent: Ghost(Seq::empty()) }
    }
}

/// Send `message` through `send`, note it in `log`, and return whether the
/// phase on the other end took it.
pub fn send_message(log: &mut SignalLog, send: Sender<PhaseMessage>, message: PhaseMessage) -> (r:
    bool)
    ensures
        final(log)@ == old(log)@.push((message, r)),
{
    let delivered = send.send(message).is_ok();
    log.sent = Ghost(log.sent@.push((message, delivered)));
    delivered
}

/// What a poll of a phase found of its background wake source.
#[derive(Debug, Clone, Copy, PartialEq, Eq, Structural)]
pub enum WakeSource {
    /// No wake source has been started yet.
    Absent,
    /// The wake source is still waiting to wake the task.
    Waiting,
    /// The wake source has said that it is done.
    Fired,
    /// The wake source went away without a word.
    Gone,
}

/// What a poll does about the wake source, so that exactly one is live while
/// the phase is pending.
#[derive(Debug, Clone, Copy, PartialEq, Eq, Structural)]
pub enum WakeAction {
    /// Keep the live source, pointing it at the current task's waker.
    Keep,
    /// Start a new source, in place of one that is absent or finished.
    Spawn,
}

/// Keep a wake source that is still waiting; start a new one otherwise.
pub fn wake_action(found: WakeSource) -> (r: WakeAction)
    ensures
        r == if found is Waiting {
            WakeAction::Keep
        } else {
            WakeAction::Spawn
        },
{
    match found {
        WakeSource::Waiting => WakeAction::Keep,
        WakeSource::Absent => WakeAction::Spawn,
        WakeSource::Fired => WakeAction::Spawn,
        WakeSource::Gone => WakeAction::Spawn,
    }
}

/// How a phase ended, with the phase's type.
#[derive(Debug, Clone, Copy, PartialEq, Eq, Structural)]
pub enum PhaseResult {
    Completed(PhaseType),
    Skipped(PhaseType),
    Stopped(PhaseType),
    Failed(PhaseType),
}

impl PhaseResult {
    /// The type of the phase that ended.
    pub open spec fn kind(self) -> PhaseType {
        match self {
            PhaseResult::Completed(k) => k,
            PhaseResult::Skipped(k) => k,
            PhaseResult::Stopped(k) => k,
            PhaseResult::Failed(k) => k,
        }
    }
}

/// What a session's driver does once a phase has ended.
#[derive(Debug, Clone, Copy, PartialEq, Eq, Structural)]
pub enum NextStep {
    /// Start the next phase; the one that ended is given.
    Advance(PhaseType),
    /// The session was stopped: drive no more phases.
    Stopped,
    /// The phase lost its session without a message: drive no more phases
    /// and report the failure.
    Failed,
}

/// The step after a phase ends: completed and skipped phases lead on to the
/// next phase, a stop ends the session, and a failure ends it as failed.
pub fn next_step(result: PhaseResult) -> (r: NextStep)
    ensures
        r == match result {
            PhaseResult::Completed(k) => NextStep::Advance(k),
            PhaseResult::Skipped(k) => NextStep::Advance(k),
            PhaseResult::Stopped(_) => NextStep::Stopped,
            PhaseResult::Failed(_) => NextStep::Failed,
        },
{
    match result {
        PhaseResult::Completed(finished) => NextStep::Advance(finished),
        PhaseResult::Skipped(finished) => NextStep::Advance(finished),
        PhaseResult::Stopped(_) => NextStep::Stopped,
        PhaseResult::Failed(_) => NextStep::Failed,
    }
}

/// The outcome of one look at a phase of type `kind` with deadline `end`,
/// where the channel gave `received` and the clock read `now`: a message
/// decides first, then a closed channel; with nothing received, the phase is
/// complete from its deadline on and still pending before it.
pub open spec fn resolve_spec(received: Received, now: int, end: int, kind: PhaseType) -> Option<
    PhaseResult,
> {
    match received {
        Received::Message(PhaseMessage::Skip) => Some(PhaseResult::Skipped(kind)),
        Received::Message(PhaseMessage::Stop) => Some(PhaseResult::Stopped(kind)),
        Received::Closed => Some(PhaseResult::Failed(kind)),
        Received::Empty => if now >= end {
            Some(PhaseResult::Completed(kind))
        } else {
            None
        },
    }
}

/// Decide the outcome of a phase from what its channel gave and the time:
/// `None` while the phase goes on.
pub fn resolve(received: Received, now: i64, end: i64, kind: PhaseType) -> (r: Option<PhaseResult>)
    ensures
        r == resolve_spec(received, now as int, end as int, kind),
{
    match received {
        Received::Message(PhaseMessage::Skip) => Some(PhaseResult::Skipped(kind)),
        Received::Message(PhaseMessage::Stop) => Some(PhaseResult::Stopped(kind)),
        Received::Closed => Some(PhaseResult::Failed(kind)),
        Received::Empty => if now >= end {
            Some(PhaseResult::Completed(kind))
        } else {
            None
        },
    }
}

/// Relies on tokio's `oneshot::Receiver::try_recv`: the message if one was
/// sent, else whether the sender is still there. Its answer depends on the
/// other half of the channel, so nothing is stated of it.
#[verifier::external_body]
fn receive(recv: &mut Receiver<PhaseMessage>) -> (r: Received) {
    match recv.try_recv() {
        Ok(message) => Received::Message(message),
        Err(tokio::sync::oneshot::error::TryRecvError::Empty) => Received::Empty,
        Err(tokio::sync::oneshot::error::TryRecvError::Closed) => Received::Closed,
    }
}

/// What a phase is, as the contracts see it.
pub struct PhaseView {
    /// The session that started the phase.
    pub session: Uuid,
    pub phase_type: PhaseType,
    /// The deadline, in milliseconds since the Unix epoch.
    pub end: int,
}

/// A running phase, which ends at its deadline unless its session skips or
/// stops it first.
#[must_use]
pub struct Phase {
    session: Uuid,
    end: i64,
    phase_type: PhaseType,
    recv: Receiver<PhaseMessage>,
}

impl View for Phase {
    type V = PhaseView;

    closed spec fn view(&self) -> PhaseView {
        PhaseView { session: self.session, phase_type: self.phase_type, end: self.end as int }
    }
}

impl Phase {
    /// A phase of type `phase_type` of session `session`, which ends at `end`
    /// (milliseconds since the Unix epoch) unless a message comes through
    /// `recv` first.
    pub fn new(session: Uuid, phase_type: PhaseType, end: i64, recv: Receiver<PhaseMessage>) -> (r:
        Phase)
        ensures
            r@ == (PhaseView { session, phase_type, end: end as int }),
    {
        Phase { session, end, phase_type, recv }
    }

    pub fn phase_type(&self) -> (r: &PhaseType)
        ensures
            *r == self@.phase_type,
    {
        &self.phase_type
    }

    /// The session that started this phase.
    pub fn session(&self) -> (r: Uuid)
        ensures
            r == self@.session,
    {
        self.session
    }

    /// The deadline, in milliseconds since the Unix epoch.
    pub fn end(&self) -> (r: i64)
        ensures
            r == self@.end,
    {
        self.end
    }

    /// Look at the channel and the clock once. A phase that has ended is
    /// used up and its outcome returned: what `resolve` gives for what the
    /// channel held and the time read. A phase that goes on comes back
    /// unchanged.
    pub fn try_resolve(self) -> (r: Result<PhaseResult, Phase>)
        ensures
            exists|received: Received, now: int|
                0 <= now < CLOCK_LIMIT_MS && #[trigger] resolve_spec(
                    received,
                    now,
                    self@.end,
                    self@.phase_type,
                ) == match r {
                    Ok(result) => Some(result),
                    Err(_) => None,
                },
            r matches Err(phase) ==> phase@ == self@,
            r matches Ok(result) ==> result.kind() == self@.phase_type,
    {
        let mut phase = self;
        let received = receive(&mut phase.recv);
        let now = now_millis();
        let outcome = resolve(received, now, phase.end, phase.phase_type);
        assert(outcome == resolve_spec(received, now as int, self@.end, self@.phase_type));
        match outcome {
            Some(result) => Ok(result),
            None => Err(phase),
        }
    }
}

/// A phase whose deadline has passed, with nothing sent to it, completes on
/// the first look.
pub proof fn lemma_past_deadline_completes(now: int, end: int, kind: PhaseType)
    requires
        end <= now,
    ensures
        resolve_spec(Received::Empty, now, end, kind) == Some(PhaseResult::Completed(kind)),
{
}

/// A skip or stop that reaches a phase decides its outcome whatever the time,
/// so before the deadline too, and the outcome carries the phase's own type.
pub proof fn lemma_message_decides(now: int, end: int, kind: PhaseType)
    ensures
        resolve_spec(Received::Message(PhaseMessage::Skip), now, end, kind) == Some(
            PhaseResult::Skipped(kind),
        ),
        resolve_spec(Received::Message(PhaseMessage::Stop), now, end, kind) == Some(
            PhaseResult::Stopped(kind),
        ),
{
}

} // verus!
