//! A server framework that exposes native functions ("handlers") as callable
//! procedures to an external calling runtime, over a line-oriented
//! request/response protocol carried on two byte streams.
//!
//! The core pieces are the scalar codec contract ([`codec`]), the typed
//! handler binding ([`handler`]), the selector registry and dispatch
//! ([`registry`]), the wire message shapes ([`protocol`]), and the session
//! state machine ([`session`]) that drives handshake, serving and
//! termination. The [`io`] module owns the two standard streams for the
//! session's lifetime.

pub mod builder;
pub mod codec;
pub mod handler;
pub mod io;
pub mod protocol;
pub mod registry;
pub mod samples;
pub mod scalar;
pub mod session;
