//! Properties of a player.
use vstd::prelude::*;

use crate::player::Interface;

verus! {

/// A D-Bus property of a player.
///
/// A property may also implement [`WritableProperty`] or
/// [`ControlWritableProperty`], but not both.
pub trait Property: std::fmt::Debug + Clone + Copy + std::hash::Hash + PartialEq {
    /// The type the property's value is read as.
    type ParseAs;

    /// The type handed to users.
    type Output;

    /// What `into_output` makes of a read value.
    spec fn spec_into_output(&self, value: Self::ParseAs) -> Self::Output;

    /// The interface the property lives on; the root interface unless a
    /// property says otherwise.
    fn interface(&self) -> (r: Interface)
        default_ensures
            r == Interface::MediaPlayer2,
    {
        Interface::default()
    }

    /// The property's name as the MPRIS specification writes it.
    fn name(&self) -> &'static str;

    /// Turns the read value into the value handed to users.
    fn into_output(&self, value: Self::ParseAs) -> (r: Self::Output)
        ensures
            r == self.spec_into_output(value),
    ;

    /// A boxed copy of the property, to be gathered with others.
    fn into_any(&self) -> (r: Box<Self>)
        ensures
            *r == *self,
    {
        Box::new(*self)
    }
}

/// A property that can always be written.
///
/// A [`Property`] should not implement both this and [`ControlWritableProperty`].
pub trait WritableProperty: Property {
    /// The opposite of [`Property::into_output`]: turns a user value back
    /// into the type the property is written as.
    fn from_output(&self, value: Self::Output) -> (r: Self::ParseAs)
        ensures
            self.spec_into_output(r) == value,
    ;
}

/// A property that can be written only while the player's `CanControl` is
/// true. This describes the player's implementation, so it does not change
/// while the player is registered.
///
/// A [`Property`] should not implement both this and [`WritableProperty`].
pub trait ControlWritableProperty: Property {
    /// The opposite of [`Property::into_output`]: turns a user value back
    /// into the type the property is written as.
    fn from_output(&self, value: Self::Output) -> (r: Self::ParseAs)
        ensures
            self.spec_into_output(r) == value,
    ;
}

} // verus!
