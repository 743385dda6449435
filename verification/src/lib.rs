//! Streaming market-data session engine for a derivatives exchange.
//!
//! The crate decodes the venue's JSON frames into a closed set of events,
//! resolves the addresses to dial, and drives the session's read loop as a
//! state machine. It performs no network traffic itself: the transport hands
//! frames in and carries replies out.

pub mod config;
pub mod errors;
pub mod json;
pub mod schema;
pub mod futures;
