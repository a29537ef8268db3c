//! A verified core for a serial-port terminal: the connection
//! lifecycle, the background reader's decisions, and the shared
//! receive buffer.
//!
//! The library holds the decision logic only. A frontend performs the
//! device I/O (port enumeration, open, read, write, close) and the
//! thread management, and feeds every outcome back into these state
//! machines:
//!
//! - [`session::Session`] — the foreground state: port choice, baud
//!   rate, connection flags, status line and send field.
//! - [`link::Link`] — the cell the foreground shares with the reader:
//!   the cooperative stop flag and the received text.
//! - [`config`] — baud-rate bounds and the fixed timing parameters.

pub mod config;
pub mod link;
pub mod session;
