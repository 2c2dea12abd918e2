//! Adapters that turn untrusted requests into typed actions.

pub mod socket_message;
pub mod action_invocation;
