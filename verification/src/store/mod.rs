//! The side of the store that this crate sees.
//!
//! The store itself is somebody else's: it is opened, written to, deleted
//! from and flushed outside this crate. What is kept here is what a read
//! does with the records that the store hands out.

pub mod reader;
