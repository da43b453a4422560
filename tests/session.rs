use round_bench::{
    first_frame_event, reader_step, DecodeError, Message, ReaderStep, Session, SessionAction, SessionError,
    SessionEvent, SessionPhase, StopReport,
};

fn stop_msg(ticks: u32, bullets_fired: u32, won: bool) -> Message {
    Message::Stop { ticks, bullets_fired, won, error_msg: None }
}

fn report(ticks: u32, bullets_fired: u32, won: bool) -> StopReport {
    StopReport { ticks, bullets_fired, won, error_msg: None }
}

fn started(interval: u64, now: u64) -> Session {
    let mut s = Session::new(interval);
    assert_eq!(s.step(SessionEvent::Received(Some(Message::Start)), now), SessionAction::Idle);
    assert_eq!(s.phase, SessionPhase::Running);
    s
}

fn assert_bad_first(first: Option<Message>) {
    let mut s = Session::new(50);
    let a = s.step(SessionEvent::Received(first), 0);
    assert_eq!(a, SessionAction::Finish(Err(SessionError::ProtocolViolation)));
    assert!(s.is_finished());
    for t in 1..20u64 {
        assert_eq!(s.step(SessionEvent::FireDue, t * 100), SessionAction::Idle);
    }
    assert_eq!(s.step(SessionEvent::Received(Some(Message::Start)), 5000), SessionAction::Idle);
    assert_eq!(s.step(SessionEvent::FireDue, 6000), SessionAction::Idle);
}

#[test]
fn first_message_fire_is_violation() {
    assert_bad_first(Some(Message::Fire));
}

#[test]
fn first_message_stop_is_violation() {
    assert_bad_first(Some(stop_msg(1, 2, true)));
}

#[test]
fn first_message_error_is_violation() {
    assert_bad_first(Some(Message::Error { msg: "no".to_string() }));
}

#[test]
fn closed_before_start_is_violation() {
    assert_bad_first(None);
}

#[test]
fn timer_before_start_sends_nothing() {
    let mut s = Session::new(50);
    assert_eq!(s.step(SessionEvent::FireDue, 10), SessionAction::Idle);
    assert_eq!(s.phase, SessionPhase::AwaitingStart);
}

#[test]
fn connect_failure_is_connection_error() {
    let mut s = Session::new(50);
    assert_eq!(
        s.step(SessionEvent::ConnectFailed, 0),
        SessionAction::Finish(Err(SessionError::ConnectionError))
    );
    assert!(s.is_finished());
}

#[test]
fn start_sets_cadence_baseline() {
    let s = started(100, 1000);
    assert_eq!(s.last_fire_ms, 1000);
    assert_eq!(s.fire_wait(1000), 100);
}

#[test]
fn fire_wait_subtracts_elapsed() {
    let s = started(100, 1000);
    assert_eq!(s.fire_wait(1030), 70);
    assert_eq!(s.fire_wait(1100), 0);
}

#[test]
fn fire_wait_never_negative_after_long_delay() {
    let s = started(100, 1000);
    assert_eq!(s.fire_wait(1_000_000), 0);
    assert_eq!(s.fire_wait(u64::MAX), 0);
}

#[test]
fn fire_wait_clock_behind_baseline() {
    let s = started(100, 1000);
    assert_eq!(s.fire_wait(500), 100);
}

#[test]
fn fire_spacing_at_least_interval() {
    let mut s = started(110, 0);
    let mut now: u64 = 0;
    let mut fires: Vec<u64> = Vec::new();
    for _ in 0..10 {
        now += s.fire_wait(now);
        assert_eq!(s.step(SessionEvent::FireDue, now), SessionAction::SendFire);
        fires.push(now);
        now += 3;
    }
    for w in fires.windows(2) {
        assert!(w[1] - w[0] >= 110);
    }
    assert_eq!(fires[0], 110);
    assert_eq!(fires[1], 220);
}

#[test]
fn running_ignores_start_and_fire() {
    let mut s = started(50, 0);
    assert_eq!(s.step(SessionEvent::Received(Some(Message::Fire)), 5), SessionAction::Idle);
    assert_eq!(s.step(SessionEvent::Received(Some(Message::Start)), 6), SessionAction::Idle);
    assert_eq!(s.phase, SessionPhase::Running);
    assert_eq!(s.last_fire_ms, 0);
}

#[test]
fn stop_finishes_with_report() {
    let mut s = started(50, 0);
    let a = s.step(SessionEvent::Received(Some(stop_msg(30, 3, true))), 10);
    assert_eq!(a, SessionAction::Finish(Ok(report(30, 3, true))));
    assert!(s.is_finished());
    assert_eq!(s.step(SessionEvent::Received(Some(stop_msg(1, 1, false))), 11), SessionAction::Idle);
}

#[test]
fn error_finishes_with_remote_error() {
    let mut s = started(50, 0);
    let a = s.step(SessionEvent::Received(Some(Message::Error { msg: "boom".to_string() })), 10);
    assert_eq!(a, SessionAction::Finish(Err(SessionError::RemoteError { msg: "boom".to_string() })));
}

#[test]
fn closed_queue_is_channel_closed() {
    let mut s = started(50, 0);
    assert_eq!(
        s.step(SessionEvent::Received(None), 10),
        SessionAction::Finish(Err(SessionError::ChannelClosed))
    );
}

#[test]
fn send_failure_is_channel_closed() {
    let mut s = started(50, 0);
    assert_eq!(
        s.step(SessionEvent::SendFailed, 10),
        SessionAction::Finish(Err(SessionError::ChannelClosed))
    );
    assert_eq!(s.step(SessionEvent::FireDue, 100), SessionAction::Idle);
}

#[test]
fn reader_forwards_decoded() {
    assert_eq!(reader_step(Some(Ok(Message::Fire))), ReaderStep::Forward(Message::Fire));
    assert_eq!(reader_step(Some(Ok(stop_msg(1, 2, false)))), ReaderStep::Forward(stop_msg(1, 2, false)));
}

#[test]
fn reader_stops_on_end() {
    assert_eq!(reader_step(None), ReaderStep::Stop);
}

#[test]
fn reader_turns_malformed_into_one_error() {
    let r = reader_step(Some(Err(DecodeError { detail: "bad tag".to_string() })));
    assert_eq!(
        r,
        ReaderStep::ForwardAndStop(Message::Error { msg: "failed at parsing: bad tag".to_string() })
    );
}

#[test]
fn stop_message_report_round_trip() {
    let m = stop_msg(7, 8, true);
    let r = m.clone().into_stop_report().unwrap();
    assert_eq!(r, report(7, 8, true));
    assert_eq!(r.into_message(), m);
    assert_eq!(Message::Fire.into_stop_report(), None);
    assert!(Message::Start.is_start());
    assert!(!Message::Fire.is_start());
}

#[test]
fn undecodable_first_frame_is_violation() {
    let e = first_frame_event(Some(Err(DecodeError { detail: "junk".to_string() })));
    assert_eq!(e, SessionEvent::Received(None));
    let mut s = Session::new(50);
    assert_eq!(s.step(e, 0), SessionAction::Finish(Err(SessionError::ProtocolViolation)));
}

#[test]
fn decoded_first_frame_is_received() {
    assert_eq!(first_frame_event(Some(Ok(Message::Start))), SessionEvent::Received(Some(Message::Start)));
    assert_eq!(first_frame_event(None), SessionEvent::Received(None));
}
