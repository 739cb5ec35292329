//! Remote control for a running audio-live-coding server over a local
//! UDP messaging protocol.
//!
//! The crate is the verified core of the tool: it parses the supervisor's
//! one-shot handshake into a session descriptor, serializes and parses the
//! persisted session file, builds the typed control messages that are sent
//! to the session's ports, and decides the control flow of the log-follow
//! loop.  All socket, file and process work is left to the thin binary
//! around this library, which hands plain values in and out.

pub mod bytes;
pub mod config;
pub mod digits;
pub mod follow;
pub mod installation;
pub mod launcher;
pub mod messages;
