//! Building the engine from source: which library to expect, how zig and git are
//! called, and why a build is refused.

pub mod entry;
pub mod fetch;
pub mod link;
pub mod vendored;
pub mod xcframework;
