//! The decision logic of a desktop shell that relays agent log events to its
//! user interface and forwards generation jobs to a local backend.
//!
//! The crate holds no sockets and no threads. Its functions take what was read
//! from a connection as plain values and say what has to be answered, what has
//! to be published and what has to be sent.

pub mod banner;
pub mod guard;
pub mod ingest;
pub mod json;
pub mod proxy;
pub mod text;

pub use ingest::LogPayload;
