use vstd::prelude::*;
use crate::message::{Message, StopReport};
use crate::session::{Session, SessionAction, SessionError, SessionEvent, SessionPhase};

verus! {

/// Fire interval, in milliseconds, of the first (faster) session of a round.
pub const FAST_FIRE_INTERVAL_MS: u64 = 110;

/// Fire interval, in milliseconds, of the second (slower) session of a round.
pub const SLOW_FIRE_INTERVAL_MS: u64 = 170;

/// The joint outcome of a round's two sessions.
#[derive(Debug, PartialEq, Eq)]
pub enum RoundOutcome {
    /// Both sessions ended with a `stop`; the first session is player one.
    Completed { stop_a: StopReport, stop_b: StopReport },
    /// One or two sessions failed; `failed_count` says how many.
    PartialFailure { failed_count: u8 },
}

/// The outcome of a round whose sessions ended with `a` and `b`.
pub open spec fn classify_spec(
    a: Result<StopReport, SessionError>,
    b: Result<StopReport, SessionError>,
) -> RoundOutcome {
    match (a, b) {
        (Ok(sa), Ok(sb)) => RoundOutcome::Completed { stop_a: sa, stop_b: sb },
        (Ok(_), Err(_)) => RoundOutcome::PartialFailure { failed_count: 1 },
        (Err(_), Ok(_)) => RoundOutcome::PartialFailure { failed_count: 1 },
        (Err(_), Err(_)) => RoundOutcome::PartialFailure { failed_count: 2 },
    }
}

impl RoundOutcome {
    /// How many of the round's sessions failed.
    pub open spec fn failures_spec(self) -> u64 {
        match self {
            RoundOutcome::Completed { .. } => 0,
            RoundOutcome::PartialFailure { failed_count } => failed_count as u64,
        }
    }

    /// How many of the round's sessions failed: what the failure counter
    /// grows by for this round.
    pub fn failed_sessions(&self) -> (r: u64)
        ensures
            r == self.failures_spec(),
    {
        match self {
            RoundOutcome::Completed { .. } => 0,
            RoundOutcome::PartialFailure { failed_count } => *failed_count as u64,
        }
    }

    /// True for a round whose two sessions both completed.
    pub fn is_completed(&self) -> (r: bool)
        ensures
            r == (*self is Completed),
    {
        match self {
            RoundOutcome::Completed { .. } => true,
            RoundOutcome::PartialFailure { .. } => false,
        }
    }
}

/// Merges the results of a round's first session `a` and second session `b`:
/// completed when both stopped, else a partial failure counting the failed
/// sessions.
pub fn classify_round(
    a: Result<StopReport, SessionError>,
    b: Result<StopReport, SessionError>,
) -> (r: RoundOutcome)
    ensures
        r == classify_spec(a, b),
        r.failures_spec() == (if a is Err { 1u64 } else { 0 }) + (if b is Err { 1u64 } else { 0 }),
{
    match (a, b) {
        (Ok(sa), Ok(sb)) => RoundOutcome::Completed { stop_a: sa, stop_b: sb },
        (Ok(_), Err(_)) => RoundOutcome::PartialFailure { failed_count: 1 },
        (Err(_), Ok(_)) => RoundOutcome::PartialFailure { failed_count: 1 },
        (Err(_), Err(_)) => RoundOutcome::PartialFailure { failed_count: 2 },
    }
}

/// The synthetic `error` that replaces an undecodable frame ends a running
/// session with that error, and the round it belongs to becomes a partial
/// failure counting one or two failed sessions as the peer failed or not,
/// whichever side of the round the session was on.
pub proof fn lemma_malformed_frame_fails_round(
    s: Session,
    msg: String,
    now: u64,
    peer: Result<StopReport, SessionError>,
)
    requires
        s.phase == SessionPhase::Running,
    ensures
        ({
            let e = SessionEvent::Received(Some(Message::Error { msg }));
            let own = Err(SessionError::RemoteError { msg });
            let count: u8 = if peer is Err { 2 } else { 1 };
            &&& s.action_for(e) == SessionAction::Finish(own)
            &&& s.next_state(e, now).phase == SessionPhase::Finished
            &&& classify_spec(own, peer) == RoundOutcome::PartialFailure { failed_count: count }
            &&& classify_spec(peer, own) == RoundOutcome::PartialFailure { failed_count: count }
        }),
{
}

} // verus!
