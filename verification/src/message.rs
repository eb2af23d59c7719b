//! The public message shapes delivered through a server endpoint.
//!
//! A message is either a scalar (four word-sized arguments, passed by value)
//! or a memory-lend descriptor (address, size, offset, valid length) tagged
//! with its lending mode. The server stores descriptors verbatim and never
//! inspects the referenced bytes; validating a lent region is the receiver's
//! business.

use vstd::prelude::*;

verus! {

/// Opaque identifier of a published service endpoint. It is generated and
/// kept unique by the naming layer; this crate only carries it around.
#[derive(Clone, Copy, Debug, PartialEq, Eq, Structural)]
pub struct ServiceId {
    pub w0: u32,
    pub w1: u32,
    pub w2: u32,
    pub w3: u32,
}

/// A small fixed-field message passed by value, carrying no memory reference.
#[derive(Clone, Copy, Debug, PartialEq, Eq, Structural)]
pub struct ScalarMessage {
    pub id: usize,
    pub arg1: usize,
    pub arg2: usize,
    pub arg3: usize,
    pub arg4: usize,
}

/// A memory-lend descriptor: an opaque four-field record passed through
/// unchanged. The queue neither maps nor unmaps the referenced memory.
#[derive(Clone, Copy, Debug, PartialEq, Eq, Structural)]
pub struct MemoryMessage {
    pub id: usize,
    pub buf: usize,
    pub buf_size: usize,
    pub offset: usize,
    pub valid: usize,
}

/// The payload of a delivered message: a scalar, an ownership transfer of a
/// memory region, or a borrow of one (read-only or read-write).
#[derive(Clone, Copy, Debug, PartialEq, Eq, Structural)]
pub enum Message {
    Scalar(ScalarMessage),
    Move(MemoryMessage),
    ImmutableBorrow(MemoryMessage),
    MutableBorrow(MemoryMessage),
}

/// A delivered message paired with the process that sent it.
#[derive(Clone, Copy, Debug, PartialEq, Eq, Structural)]
pub struct MessageEnvelope {
    pub sender: usize,
    pub message: Message,
}

/// Errors a server endpoint can report. `AlreadyExists` is fatal to the
/// registration attempt that produced it; `QueueFull` is a recoverable
/// backpressure signal the caller must propagate to the remote sender.
#[derive(Clone, Copy, Debug, PartialEq, Eq, Structural)]
pub enum IpcError {
    AlreadyExists,
    QueueFull,
}

} // verus!
