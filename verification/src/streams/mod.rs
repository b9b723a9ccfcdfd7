//! Streams and the event loop.
pub mod mpris;
