//! Adapters that let a synchronous TLS engine run over a cooperative,
//! non-blocking transport.
//!
//! The synchronous engine calls blocking-style `read` and `write` and treats
//! "not ready yet" as an error value; the transport instead wants its caller
//! to suspend and be woken. The modules here hold the decisions that reconcile
//! the two: what the shim answers to the engine, when the handshake driver
//! suspends, resumes, completes or fails, and how an established stream turns
//! the engine's results into progress reports. Performing the transport
//! operations and parking the task is left to the caller.

pub mod connector;
pub mod engine;
pub mod error;
pub mod handshake;
pub mod progress;
pub mod shim;
pub mod stream;
