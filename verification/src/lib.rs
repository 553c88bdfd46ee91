//! The resume-token state machine of a watch over a versioned resource
//! collection.
//!
//! A watch is a long-lived request that streams change events. The server
//! may close the stream at any time and may report that the token a client
//! resumes from is too old. This crate holds everything a watcher decides:
//! which token the next request carries, when a pause is owed before it,
//! and what an observed stream item does to the session. It performs no
//! input or output. A driver owns the connection, sleeps when told to and
//! feeds back what it saw.
//!
//! - [`event`]: the change events of a stream and what a session reads in
//!   them.
//! - [`session`]: the [`Informer`], its abstract [`State`] and the
//!   transitions between states.
//! - [`protocol`]: whole `poll` calls as rounds, and what holds from one
//!   round to the next.

pub mod event;
pub mod protocol;
pub mod session;

pub use crate::event::{ErrorResponse, Meta, Versioned, WatchEvent, GONE};
pub use crate::session::{Informer, PollStep, State, BACKOFF_SECS};
