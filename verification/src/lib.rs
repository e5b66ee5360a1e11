//! A safety layer between a garbage-collected caller and a native key-value
//! store, written so that its rules can be proved.
//!
//! The caller holds opaque handles, may call from any thread, and learns of
//! failure only through a result code and a per-thread detail message. This
//! crate holds the rules of that boundary as plain values: what counts as a
//! null argument, which thread may touch a resource, when a resource dropped
//! on a foreign thread is destroyed, and how the outcome of a call is
//! recorded. The process-wide and per-thread state is handed in explicitly by
//! whoever owns it.

pub mod calls;
pub mod data;
pub mod error;
pub mod handle;
pub mod is_null;
pub mod read;
pub mod result;
pub mod store;
pub mod text;
pub mod thread_bound;
