//! Coordinator of word-guessing sessions: one session per user, each driven
//! through request/reply exchanges with a single checking service.
//!
//! The coordinator never waits. A transition that needs the service tells
//! the host to send a request, puts the request on record and has the caller
//! parked; the service's reply, matched by the id of the request, wakes the
//! caller, whose second run of the same transition finishes the work. A
//! watchdog closes every round that outlives its deadline.

pub mod coordinator;
pub mod ids;
pub mod lemmas;
pub mod protocol;
pub mod session;
pub mod table;
pub mod word;

pub use coordinator::{GameSessionState, State};
pub use ids::{ActorId, MessageId};
pub use protocol::{
    Command, GameSessionAction, GameSessionEvent, SessionError, SessionResult, StateQuery,
    WordleEvent,
};
pub use session::{Session, SessionStatus};
