//! Terminal engine front end.
//!
//! The engine itself parses escape sequences, keeps the screen and encodes
//! events. This library holds what is decided around it: which bytes and events
//! go to it, what its answers mean, which state follows, and what a frame looks
//! like. Types that own an object of the engine are generic over the handle that
//! stands for it.

pub mod draw;
pub mod input;
pub mod key;
pub mod mouse;
pub mod native;
pub mod pty;
pub mod report;
pub mod run;
pub mod scrollbar;
pub mod session;
pub mod snapshot;
pub mod status;
pub mod terminal;
pub mod text;
pub mod utf8;
