//! Types a player yields.
pub use crate::player::metadata::{MetaValue, Metadata, MetadataView, TrackId};
