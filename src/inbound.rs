use vstd::prelude::*;
use crate::message::{DecodeError, Message};
use crate::session::SessionEvent;

verus! {

/// What the background receive unit of a session does with one read.
#[derive(Debug, PartialEq, Eq)]
pub enum ReaderStep {
    /// Hand this message to the session's driver and keep reading.
    Forward(Message),
    /// Hand this message to the driver, then stop reading.
    ForwardAndStop(Message),
    /// Stop reading without handing anything over.
    Stop,
}

/// The text of the synthetic `error` that replaces an undecodable frame.
pub open spec fn decode_failure_text(detail: Seq<char>) -> Seq<char> {
    "failed at parsing: "@ + detail
}

/// Decides what the receive unit does with the result of one read:
/// `None` when the connection has ended, else the decoded frame. A decoded
/// message is forwarded; an undecodable frame becomes a single synthetic
/// `error` message, after which reading stops; an ended connection stops
/// reading, which closes the session's inbound queue.
pub fn reader_step(frame: Option<Result<Message, DecodeError>>) -> (r: ReaderStep)
    ensures
        match frame {
            None => r == ReaderStep::Stop,
            Some(Ok(m)) => r == ReaderStep::Forward(m),
            Some(Err(e)) => exists|msg: String|
                r == ReaderStep::ForwardAndStop(Message::Error { msg })
                    && msg@ == decode_failure_text(e.detail@),
        },
{
    match frame {
        None => ReaderStep::Stop,
        Some(Ok(m)) => ReaderStep::Forward(m),
        Some(Err(e)) => {
            let mut msg = String::from_str("failed at parsing: ");
            msg.append(e.detail.as_str());
            proof {
                assert(msg@ == decode_failure_text(e.detail@));
            }
            ReaderStep::ForwardAndStop(Message::Error { msg })
        },
    }
}

/// The event that the first read of a connection makes for its session: a
/// frame that does not decode counts as no `start`, like a closed connection.
pub fn first_frame_event(frame: Option<Result<Message, DecodeError>>) -> (r: SessionEvent)
    ensures
        r == SessionEvent::Received(
            match frame {
                Some(Ok(m)) => Some(m),
                _ => None,
            },
        ),
{
    match frame {
        Some(Ok(m)) => SessionEvent::Received(Some(m)),
        _ => SessionEvent::Received(None),
    }
}

} // verus!
