//! The properties of a player and related things.
pub use crate::player::properties::{ControlWritableProperty, Property, WritableProperty};
