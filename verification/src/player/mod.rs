use vstd::prelude::*;

pub mod metadata;
pub mod properties;
pub mod signals;

verus! {

/// The D-Bus interface of a media player that a property or a signal lives on.
#[derive(Debug, Clone, Copy, PartialEq, Eq, Hash)]
pub enum Interface {
    /// `org.mpris.MediaPlayer2`, the root interface.
    MediaPlayer2,
    /// `org.mpris.MediaPlayer2.Player`, the playback interface.
    Player,
}

impl Default for Interface {
    /// The root interface.
    fn default() -> (r: Self)
        ensures
            r == Interface::MediaPlayer2,
    {
        Interface::MediaPlayer2
    }
}

} // verus!
