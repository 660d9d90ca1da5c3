//! Transport and session core of an Engine.IO server.
//!
//! The crate holds the decisions of the server and leaves the I/O to its
//! caller: which session a request belongs to, what a poll, a send or an
//! upgrade does to the table of sessions, and how the read loop of a
//! WebSocket connection reacts to what it reads. Every function is total and
//! its contract says what it returns and how it changes the table.

pub mod config;
pub mod engine;
pub mod laws;
pub mod query;
pub mod registry;
pub mod request;
pub mod session;
pub mod ws;
