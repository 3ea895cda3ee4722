//! Reporting layer of a Python environment discovery tool.
//!
//! Discovery collaborators hand managers and environments to the
//! [`messaging::JsonRpcDispatcher`], which deduplicates them by identity key,
//! serializes each newly seen report as a JSON-RPC envelope, and appends a
//! length-prefixed frame for it to its output channel. Diagnostic log records
//! are turned into envelopes on the same channel by the
//! [`logging::LogInterceptor`], so the channel only ever carries well-formed
//! frames.

pub mod json;
pub mod logging;
pub mod messaging;
pub mod wire;
