//! Sans-IO core of a client for the Hrana stream protocol.
//!
//! The crate holds everything a client decides or computes: how statements
//! are packaged into an ordered batch, how the per-step outcomes of a reply
//! are decoded into query results, and which calls the client accepts in
//! which phase of its life. Network I/O is left to the caller, who performs
//! the requests this crate prepares and hands the replies back.

pub mod batch;
pub mod client;
pub mod decode;
pub mod error;
pub mod model;
pub mod row;
pub mod wire;
