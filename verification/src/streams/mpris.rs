//! The event loop over all players on the bus.
pub use crate::mpris::event_loop::{
    MprisEvent, PlayerEntry, PlayerEvent, PlayerLoop, PlayerLoopView, PollOutcome, Setup, Step,
    collect_streams, handle_pending, merge_property_streams,
};
