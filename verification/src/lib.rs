//! A resilient subscription to a real-time trade feed.
//!
//! The crate holds the decisions of a feed client and none of its I/O. A
//! driver owns the socket, the clock and the environment; it hands what it
//! reads to the library and carries out what the library answers.
//!
//! - [`session`]: one connection attempt as a state machine, from
//!   `connection_init` to the end of the subscription.
//! - [`backoff`]: the pause between two attempts.
//! - [`trade`]: the trade event and its decoder.
//! - [`envelope`] and [`wire`]: the messages of the protocol, inbound and
//!   outbound.
//! - [`json`]: JSON documents as plain data.
//! - [`request`]: the request that opens the connection.
//! - [`config`]: the credentials.
//! - [`text`]: comparing texts.

pub mod backoff;
pub mod config;
pub mod envelope;
pub mod json;
pub mod request;
pub mod session;
pub mod text;
pub mod trade;
pub mod wire;
