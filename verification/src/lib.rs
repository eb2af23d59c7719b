//! Kernel-side message queue for synchronous inter-process communication.
//!
//! A [`server::Server`] is one published service endpoint: it buffers inbound
//! messages in a fixed-capacity ring when no receiving thread is ready, and
//! records which execution contexts are parked awaiting delivery so that an
//! arriving message can be handed over directly (rendezvous fast path).

pub mod llio;
pub mod message;
pub mod server;
