//! Synchronization core of a bookmark client for a peer-to-peer, append-only
//! document store.
//!
//! The crate holds what the client decides and computes: how a write
//! operation is built, what a query asks for, how query results are filtered
//! and ordered, how log entries and query rows become documents, and how the
//! messages that travel between the interface and the worker are routed.
//! Sending and receiving is left to the caller, who hands the replies back as
//! plain values.

pub mod client;
pub mod collection;
pub mod document;
pub mod error;
pub mod filter;
pub mod identifier;
pub mod identity;
pub mod interface;
pub mod message;
pub mod operation;
pub mod order;
pub mod projection;
pub mod query;
pub mod submission;
pub mod text;
pub mod worker;
