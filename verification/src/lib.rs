//! Verified core of a family of message-queue command-line tools.
//!
//! The tools themselves are thin shells: they read configuration files and
//! environment variables, open a client to a remote queue service, perform
//! one call and print the result. Everything the shells decide — how layered
//! configuration sources are merged, how a queue name is resolved, when a
//! queue counts as FIFO and what that demands of a send, how `key=value`
//! message attributes are parsed, and whether a received message is deleted —
//! lives here, with contracts.

pub mod attrs;
pub mod cli;
pub mod config;
pub mod error;
pub mod fifo;
pub mod recv;
pub mod send;
