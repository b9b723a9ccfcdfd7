//! Signals that a player can emit.
use vstd::prelude::*;

use crate::player::Interface;

verus! {

/// A D-Bus signal of a player.
///
/// `ParseAs` is the type that the signal's body is read as; `into_output`
/// turns it into the value handed to users.
pub trait Signal: std::fmt::Debug + Clone + Copy + std::hash::Hash + PartialEq {
    /// The type the signal's body is read as.
    type ParseAs;

    /// The type handed to users.
    type Output;

    /// What `into_output` makes of a read value.
    spec fn spec_into_output(&self, value: Self::ParseAs) -> Self::Output;

    /// The signal's name as the MPRIS specification writes it.
    fn name(&self) -> &'static str;

    /// The interface the signal is emitted on; the root interface unless
    /// a signal says otherwise.
    fn interface(&self) -> (r: Interface)
        default_ensures
            r == Interface::MediaPlayer2,
    {
        Interface::default()
    }

    /// Turns the read value into the value handed to users.
    fn into_output(&self, value: Self::ParseAs) -> (r: Self::Output)
        ensures
            r == self.spec_into_output(value),
    ;
}

/// Emitted when the track position changed in a way that is not consistent
/// with the playing state: a seek, a pause, or a change of track.
#[derive(Debug, Clone, Copy, PartialEq, Eq, Hash)]
pub struct Seeked;

impl Signal for Seeked {
    /// The new position, in microseconds, as a signed 64-bit integer.
    type ParseAs = i64;

    /// The new position in microseconds.
    type Output = u64;

    /// The microsecond count taken as unsigned, wrapping as a cast does.
    open spec fn spec_into_output(&self, value: i64) -> u64 {
        value as u64
    }

    fn name(&self) -> (r: &'static str)
        ensures
            r@ == "Seeked"@,
    {
        "Seeked"
    }

    fn interface(&self) -> (r: Interface)
        ensures
            r == Interface::Player,
    {
        Interface::Player
    }

    fn into_output(&self, value: i64) -> (r: u64)
        ensures
            value >= 0 ==> r as int == value as int,
            value < 0 ==> r as int == value as int + 0x1_0000_0000_0000_0000,
    {
        proof {
            lemma_seeked_position_kept(value);
        }
        value as u64
    }
}

/// The position a `Seeked` signal carries is kept as it is where it is not
/// negative, and a negative one wraps around 2^64, as a cast does.
pub proof fn lemma_seeked_position_kept(value: i64)
    ensures
        value >= 0 ==> Seeked.spec_into_output(value) as int == value as int,
        value < 0 ==> Seeked.spec_into_output(value) as int == value as int
            + 0x1_0000_0000_0000_0000,
{
    assert(value >= 0 ==> (value as u64) as int == value as int) by (bit_vector);
    assert(value < 0 ==> (value as u64) as int == value as int + 0x1_0000_0000_0000_0000)
        by (bit_vector);
}

} // verus!
