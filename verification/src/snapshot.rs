//! Complete terminal snapshots: capturing them record by record and restoring
//! them from bytes that arrive in fragments.
//!
//! A snapshot is an ordered, authenticated record stream. Its READY checkpoint
//! holds enough to render and resume the terminal. Older scrollback pages follow
//! it, and the FINISH checkpoint authenticates the whole. The engine reads and
//! writes the records; the types here hold everything that is decided around it.
//!
//! A type that owns an object of the engine is generic over the handle that
//! stands for it. Dropping the handle releases the object.

pub mod capture;
pub mod decoder;
pub mod encode;
pub mod error;
pub mod feed;
pub mod incremental;
