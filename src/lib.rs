//! Client side of a line-delimited JSON protocol spoken with a long-lived
//! bridge process over its standard input and output.
//!
//! The library holds the verified logic: how commands are written as lines,
//! how lines from the bridge are told apart as replies or events, how a reply
//! is matched to the request that waits for it, and the queue of events.
//! Running the process and its reader thread is left to the caller.

mod json;
pub mod message;
pub mod session;
pub mod events;
pub mod launch;

pub use json::Field;
pub use message::{Command, Response, Event, ClientError, Incoming};
pub use session::{Session, WaitStep};
pub use events::EventQueue;


