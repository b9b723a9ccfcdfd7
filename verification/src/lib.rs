//! An MPRIS client library: typed properties and signals of media players,
//! the track metadata they publish, and the decision core of an event loop
//! that follows players appearing, disappearing and moving through tracks.

// The event loop's decisions.
pub mod mpris;

// A player's properties, signals and metadata.
pub mod player;

// Public paths, grouped by topic.
pub mod player_types;
pub mod properties;
pub mod signals;
pub mod streams;

pub use player::Interface;
pub use vstd::hash_map::StringHashMap;
