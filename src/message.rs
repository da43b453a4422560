use vstd::prelude::*;

verus! {

/// The payload of a `stop` message: the outcome of one player's game.
#[derive(Debug, Clone, PartialEq, Eq)]
pub struct StopReport {
    pub ticks: u32,
    pub bullets_fired: u32,
    pub won: bool,
    pub error_msg: Option<String>,
}

/// The closed set of messages exchanged with the game server.
#[derive(Debug, Clone, PartialEq, Eq)]
pub enum Message {
    Start,
    Stop { ticks: u32, bullets_fired: u32, won: bool, error_msg: Option<String> },
    Fire,
    Error { msg: String },
}

/// An inbound frame whose payload is not one of the four message shapes.
#[derive(Debug, Clone, PartialEq, Eq)]
pub struct DecodeError {
    pub detail: String,
}

impl Message {
    /// The stop payload carried by this message, if it is a `stop`.
    pub open spec fn stop_report(self) -> Option<StopReport> {
        match self {
            Message::Stop { ticks, bullets_fired, won, error_msg } => Some(
                StopReport { ticks, bullets_fired, won, error_msg },
            ),
            _ => None,
        }
    }

    /// Moves the payload of a `stop` message into a report.
    pub fn into_stop_report(self) -> (r: Option<StopReport>)
        ensures
            r == self.stop_report(),
    {
        match self {
            Message::Stop { ticks, bullets_fired, won, error_msg } => Some(
                StopReport { ticks, bullets_fired, won, error_msg },
            ),
            _ => None,
        }
    }

    /// True exactly for the `start` message.
    pub fn is_start(&self) -> (r: bool)
        ensures
            r == (*self is Start),
    {
        match self {
            Message::Start => true,
            _ => false,
        }
    }
}

impl StopReport {
    /// The `stop` message that carries this report.
    pub fn into_message(self) -> (r: Message)
        ensures
            r.stop_report() == Some(self),
    {
        Message::Stop {
            ticks: self.ticks,
            bullets_fired: self.bullets_fired,
            won: self.won,
            error_msg: self.error_msg,
        }
    }
}

} // verus!
