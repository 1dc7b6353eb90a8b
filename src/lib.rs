//! Connection registry and broadcast engine for live template clients.
//!
//! Clients subscribe to a channel (a template name) over a long-lived
//! connection; producers broadcast messages to exactly the subscribers of a
//! channel. The registry, the message frames, the per-connection loop
//! decisions and the template event bridge are all verified here; the
//! transport and the task plumbing live outside the library.

pub mod json;

pub mod message;
mod queue;
pub mod server;
pub mod laws;
pub mod inbound;
pub mod controller;
