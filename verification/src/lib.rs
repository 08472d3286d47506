//! A synchronous run-on-a-fresh-thread execution primitive.
//!
//! A unit of work is handed to a dedicated worker thread, the caller blocks
//! until the worker terminates, and the worker's result comes back with its
//! type restored.  This crate holds the verified core of that primitive: the
//! structured failures, the classification of the host's thread-create and
//! thread-join status codes, the tagged container that carries a result
//! across the thread boundary, and the call protocol that guarantees exactly
//! one worker thread per call.  The host-specific thread machinery itself
//! (an opaque entry-point address handed to a joinable thread) lives outside
//! the verified core and drives it through these functions.

pub mod adapter;
pub mod digits;
pub mod erased;
pub mod executor;
pub mod failure;
pub mod protocol;
