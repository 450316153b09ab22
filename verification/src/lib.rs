//! Conversation session client for a remote character chat service.
//!
//! The crate holds the protocol rules of the client: which request each
//! operation sends, how a reply is read, how the event stream of a turn is
//! reduced to one answer, how one session per view is remembered, and how one
//! exchange is handed back to its caller exactly once. Sending a request,
//! reading the secret store and running work on another thread are left to
//! the caller, who passes them in as functions.

pub mod dispatch;
pub mod error;
pub mod exchange;
pub mod http;
pub mod json;
pub mod services;
pub mod session;
pub mod stream;
