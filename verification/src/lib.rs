//! Transport, correlation and resilience kernel of a chat-engine client.
//!
//! The crate holds the decisions of the client and none of its I/O: a bounded
//! event queue, a registry that routes replies by correlation id, the
//! connection state machine with its reader and writer steps, and the facade
//! that shapes outgoing commands. Every executable function carries a
//! contract that Verus proves.

pub mod bot;
pub mod client;
pub mod commands;
pub mod connection;
pub mod decimal;
pub mod error;
pub mod json;
pub mod queue;
pub mod registry;
pub mod response;
pub mod subscription;
pub mod utils;
