//! Client-side driver for paired-session benchmark rounds against a game
//! server: the message vocabulary, the per-session protocol state machine,
//! round classification, result aggregation and bounded round scheduling.
//! Network transport, timers and task spawning live with the caller, which
//! feeds events into these state machines and performs the actions they
//! return.

pub mod address;
pub mod aggregate;
pub mod codec;
pub mod inbound;
pub mod message;
pub mod round;
pub mod scheduler;
pub mod session;

pub use address::{server_url, ws_address_text, AddressError};
pub use aggregate::GameResult;
pub use codec::{encode_message, EncodeError};
pub use inbound::{first_frame_event, reader_step, ReaderStep};
pub use message::{DecodeError, Message, StopReport};
pub use round::{classify_round, RoundOutcome, FAST_FIRE_INTERVAL_MS, SLOW_FIRE_INTERVAL_MS};
pub use scheduler::{ScheduleError, Scheduler, SchedulerAction, SchedulerEvent};
pub use session::{Session, SessionAction, SessionError, SessionEvent, SessionPhase};
