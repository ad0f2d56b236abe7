//! Bounded, incremental terminal snapshots and authenticated history paging.
//!
//! Record and unit bytes are opaque here: the engine moves one complete record
//! into the caller's buffer, and nothing in this library parses or rewrites it.
//! Each operation takes what the engine answered and decides what the caller
//! sees, which state follows, and what has to be aborted before it is released.

pub mod capabilities;
pub mod capture;
pub mod decode;
pub mod history;
pub mod status;
