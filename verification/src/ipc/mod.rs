//! Client and daemon talk over a loopback TCP connection, one JSON request
//! or response per line. This module holds what the messages say; the
//! transport is the caller's.
pub mod client;
pub mod protocol;
pub mod server;
