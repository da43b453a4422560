use vstd::prelude::*;
use crate::message::{Message, StopReport};

verus! {

/// Why a client session ended without a `stop` report.
#[derive(Debug, Clone, PartialEq, Eq)]
pub enum SessionError {
    /// The transport could not be established.
    ConnectionError,
    /// The first inbound message was not `start`, or the connection closed first.
    ProtocolViolation,
    /// The peer sent an `error` message, or an inbound frame could not be decoded.
    RemoteError { msg: String },
    /// The inbound queue or the connection ended before a terminal message.
    ChannelClosed,
}

/// Where a session stands in its protocol.
#[derive(Debug, Clone, Copy, PartialEq, Eq, Structural)]
pub enum SessionPhase {
    AwaitingStart,
    Running,
    Finished,
}

/// Something that happened to a session, reported by whoever drives its I/O.
#[derive(Debug, Clone, PartialEq, Eq)]
pub enum SessionEvent {
    /// Dialing or the transport handshake failed.
    ConnectFailed,
    /// The next inbound message; `None` once the inbound side has ended.
    Received(Option<Message>),
    /// The fire timer elapsed.
    FireDue,
    /// Writing a frame to the connection failed.
    SendFailed,
}

/// What the driver of a session must do after an event.
#[derive(Debug, PartialEq, Eq)]
pub enum SessionAction {
    /// Nothing to send; keep waiting for the next event.
    Idle,
    /// Send one `fire` message.
    SendFire,
    /// The session is over with this result; it accepts no further work.
    Finish(Result<StopReport, SessionError>),
}

/// One player's connection to the server, as a protocol state machine.
/// Times are milliseconds on a monotonic clock chosen by the driver.
#[derive(Debug, Clone, Copy, PartialEq, Eq)]
pub struct Session {
    pub fire_interval_ms: u64,
    pub phase: SessionPhase,
    pub last_fire_ms: u64,
}

/// Milliseconds to wait before the next `fire`: the interval less the time
/// already spent since the last one, and never below zero.
pub open spec fn fire_wait_spec(interval: u64, last: u64, now: u64) -> u64 {
    let elapsed: int = if now >= last { now - last } else { 0 };
    if elapsed >= interval { 0 } else { (interval - elapsed) as u64 }
}

impl Session {
    /// The state after `e` arrives at time `now`.
    pub open spec fn next_state(self, e: SessionEvent, now: u64) -> Session {
        match self.phase {
            SessionPhase::Finished => self,
            SessionPhase::AwaitingStart => match e {
                SessionEvent::FireDue => self,
                SessionEvent::Received(Some(Message::Start)) => Session {
                    phase: SessionPhase::Running,
                    last_fire_ms: now,
                    ..self
                },
                _ => Session { phase: SessionPhase::Finished, ..self },
            },
            SessionPhase::Running => match e {
                SessionEvent::Received(Some(Message::Start)) => self,
                SessionEvent::Received(Some(Message::Fire)) => self,
                SessionEvent::FireDue => Session { last_fire_ms: now, ..self },
                _ => Session { phase: SessionPhase::Finished, ..self },
            },
        }
    }

    /// The action owed when `e` arrives.
    pub open spec fn action_for(self, e: SessionEvent) -> SessionAction {
        match self.phase {
            SessionPhase::Finished => SessionAction::Idle,
            SessionPhase::AwaitingStart => match e {
                SessionEvent::ConnectFailed => SessionAction::Finish(
                    Err(SessionError::ConnectionError),
                ),
                SessionEvent::Received(Some(Message::Start)) => SessionAction::Idle,
                SessionEvent::Received(_) => SessionAction::Finish(
                    Err(SessionError::ProtocolViolation),
                ),
                SessionEvent::FireDue => SessionAction::Idle,
                SessionEvent::SendFailed => SessionAction::Finish(
                    Err(SessionError::ChannelClosed),
                ),
            },
            SessionPhase::Running => match e {
                SessionEvent::ConnectFailed => SessionAction::Finish(
                    Err(SessionError::ConnectionError),
                ),
                SessionEvent::Received(None) => SessionAction::Finish(
                    Err(SessionError::ChannelClosed),
                ),
                SessionEvent::Received(Some(m)) => match m {
                    Message::Stop { ticks, bullets_fired, won, error_msg } => SessionAction::Finish(
                        Ok(StopReport { ticks, bullets_fired, won, error_msg }),
                    ),
                    Message::Error { msg } => SessionAction::Finish(
                        Err(SessionError::RemoteError { msg }),
                    ),
                    _ => SessionAction::Idle,
                },
                SessionEvent::FireDue => SessionAction::SendFire,
                SessionEvent::SendFailed => SessionAction::Finish(
                    Err(SessionError::ChannelClosed),
                ),
            },
        }
    }

    /// A fresh session that has not yet seen its first message.
    pub fn new(fire_interval_ms: u64) -> (r: Session)
        ensures
            r.fire_interval_ms == fire_interval_ms,
            r.phase == SessionPhase::AwaitingStart,
            r.last_fire_ms == 0,
    {
        Session { fire_interval_ms, phase: SessionPhase::AwaitingStart, last_fire_ms: 0 }
    }

    /// True once the session has reached its terminal state.
    pub fn is_finished(&self) -> (r: bool)
        ensures
            r == (self.phase == SessionPhase::Finished),
    {
        self.phase == SessionPhase::Finished
    }

    /// How long to wait at time `now_ms` before the next `fire` is due.
    pub fn fire_wait(&self, now_ms: u64) -> (r: u64)
        ensures
            r == fire_wait_spec(self.fire_interval_ms, self.last_fire_ms, now_ms),
    {
        let elapsed: u64 = now_ms.saturating_sub(self.last_fire_ms);
        self.fire_interval_ms.saturating_sub(elapsed)
    }

    /// Applies one event at time `now_ms` and returns what must be done.
    pub fn step(&mut self, event: SessionEvent, now_ms: u64) -> (r: SessionAction)
        ensures
            *final(self) == old(self).next_state(event, now_ms),
            r == old(self).action_for(event),
    {
        match self.phase {
            SessionPhase::Finished => SessionAction::Idle,
            SessionPhase::AwaitingStart => match event {
                SessionEvent::ConnectFailed => {
                    self.phase = SessionPhase::Finished;
                    SessionAction::Finish(Err(SessionError::ConnectionError))
                },
                SessionEvent::Received(Some(Message::Start)) => {
                    self.phase = SessionPhase::Running;
                    self.last_fire_ms = now_ms;
                    SessionAction::Idle
                },
                SessionEvent::Received(_) => {
                    self.phase = SessionPhase::Finished;
                    SessionAction::Finish(Err(SessionError::ProtocolViolation))
                },
                SessionEvent::FireDue => SessionAction::Idle,
                SessionEvent::SendFailed => {
                    self.phase = SessionPhase::Finished;
                    SessionAction::Finish(Err(SessionError::ChannelClosed))
                },
            },
            SessionPhase::Running => match event {
                SessionEvent::ConnectFailed => {
                    self.phase = SessionPhase::Finished;
                    SessionAction::Finish(Err(SessionError::ConnectionError))
                },
                SessionEvent::Received(None) => {
                    self.phase = SessionPhase::Finished;
                    SessionAction::Finish(Err(SessionError::ChannelClosed))
                },
                SessionEvent::Received(Some(m)) => match m {
                    Message::Stop { ticks, bullets_fired, won, error_msg } => {
                        self.phase = SessionPhase::Finished;
                        SessionAction::Finish(
                            Ok(StopReport { ticks, bullets_fired, won, error_msg }),
                        )
                    },
                    Message::Error { msg } => {
                        self.phase = SessionPhase::Finished;
                        SessionAction::Finish(Err(SessionError::RemoteError { msg }))
                    },
                    _ => SessionAction::Idle,
                },
                SessionEvent::FireDue => {
                    self.last_fire_ms = now_ms;
                    SessionAction::SendFire
                },
                SessionEvent::SendFailed => {
                    self.phase = SessionPhase::Finished;
                    SessionAction::Finish(Err(SessionError::ChannelClosed))
                },
            },
        }
    }
}

/// The actions a session returns for a sequence of timed events.
pub open spec fn run_actions(s: Session, events: Seq<(SessionEvent, u64)>) -> Seq<SessionAction>
    decreases events.len(),
{
    if events.len() == 0 {
        Seq::empty()
    } else {
        seq![s.action_for(events[0].0)] + run_actions(
            s.next_state(events[0].0, events[0].1),
            events.drop_first(),
        )
    }
}

/// A finished session answers every later event with `Idle`: it never
/// sends again and never reports a second result.
pub proof fn lemma_finished_is_silent(s: Session, events: Seq<(SessionEvent, u64)>)
    requires
        s.phase == SessionPhase::Finished,
    ensures
        run_actions(s, events).len() == events.len(),
        forall|i: int| 0 <= i < events.len() ==> run_actions(s, events)[i] == SessionAction::Idle,
    decreases events.len(),
{
    if events.len() > 0 {
        lemma_finished_is_silent(s.next_state(events[0].0, events[0].1), events.drop_first());
    }
}

/// A session whose first inbound message is anything but `start` (or who
/// sees the connection close first) fails with a protocol violation, and
/// no `fire` is ever sent, whatever events follow.
pub proof fn lemma_bad_first_message(
    s: Session,
    first: Option<Message>,
    now: u64,
    rest: Seq<(SessionEvent, u64)>,
)
    requires
        s.phase == SessionPhase::AwaitingStart,
        first != Some(Message::Start),
    ensures
        ({
            let acts = run_actions(s, seq![(SessionEvent::Received(first), now)] + rest);
            &&& acts[0] == SessionAction::Finish(Err(SessionError::ProtocolViolation))
            &&& forall|i: int| 0 <= i < acts.len() ==> acts[i] != SessionAction::SendFire
        }),
{
    let events = seq![(SessionEvent::Received(first), now)] + rest;
    let s1 = s.next_state(SessionEvent::Received(first), now);
    assert(events.drop_first() =~= rest);
    lemma_finished_is_silent(s1, rest);
    let acts = run_actions(s, events);
    assert(acts == seq![s.action_for(events[0].0)] + run_actions(s1, rest));
    assert forall|i: int| 0 <= i < acts.len() implies acts[i] != SessionAction::SendFire by {
        if i > 0 {
            assert(acts[i] == run_actions(s1, rest)[i - 1]);
        }
    }
}

/// A session reaches its terminal state at most once: after the first
/// `Finish`, no later event yields another.
pub proof fn lemma_single_finish(s: Session, events: Seq<(SessionEvent, u64)>)
    ensures
        forall|i: int, j: int|
            0 <= i < j < events.len() && run_actions(s, events)[i] is Finish
                ==> !(run_actions(s, events)[j] is Finish),
    decreases events.len(),
{
    if events.len() > 0 {
        let s1 = s.next_state(events[0].0, events[0].1);
        let rest = events.drop_first();
        let acts = run_actions(s, events);
        lemma_single_finish(s1, rest);
        lemma_run_len(s1, rest);
        if s.action_for(events[0].0) is Finish {
            lemma_finished_is_silent(s1, rest);
        }
        assert forall|i: int, j: int|
            0 <= i < j < events.len() && acts[i] is Finish implies !(acts[j] is Finish) by {
            assert(acts[j] == run_actions(s1, rest)[j - 1]);
            if i > 0 {
                assert(acts[i] == run_actions(s1, rest)[i - 1]);
            }
        }
    }
}

/// One action per event.
pub proof fn lemma_run_len(s: Session, events: Seq<(SessionEvent, u64)>)
    ensures
        run_actions(s, events).len() == events.len(),
    decreases events.len(),
{
    if events.len() > 0 {
        lemma_run_len(s.next_state(events[0].0, events[0].1), events.drop_first());
    }
}

/// The computed wait is never more than the interval, and waiting it out
/// from any time `now` at or after the last `fire` lands no earlier than
/// one full interval after that `fire`; once the interval has passed the
/// wait is zero, so a late timer adds no further delay.
pub proof fn lemma_fire_cadence(s: Session, now: u64, fire_at: u64)
    requires
        s.phase == SessionPhase::Running,
        s.last_fire_ms <= now,
        now + fire_wait_spec(s.fire_interval_ms, s.last_fire_ms, now) <= fire_at,
    ensures
        fire_wait_spec(s.fire_interval_ms, s.last_fire_ms, now) <= s.fire_interval_ms,
        now - s.last_fire_ms >= s.fire_interval_ms
            ==> fire_wait_spec(s.fire_interval_ms, s.last_fire_ms, now) == 0,
        s.action_for(SessionEvent::FireDue) == SessionAction::SendFire,
        fire_at - s.last_fire_ms >= s.fire_interval_ms,
        s.next_state(SessionEvent::FireDue, fire_at).last_fire_ms == fire_at,
{
}

} // verus!
