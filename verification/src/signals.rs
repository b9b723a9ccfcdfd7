//! Signals that a player can emit.
pub use crate::player::signals::{Seeked, Signal};
