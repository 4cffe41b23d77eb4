use vstd::prelude::*;
use core::marker::PhantomData;

verus! {

/// The empty water level.
pub struct Low;

/// The half-full water level.
pub struct Medium;

/// The full water level.
pub struct High;

/// A heater whose water level lives in the type: only the transitions
/// spelled out below exist, so an impossible refill cannot even be
/// written.
pub struct Heater<S> {
    _marker: PhantomData<S>,
}

impl Heater<Low> {
    /// An empty heater.
    pub fn empty() -> (h: Heater<Low>) {
        Heater { _marker: PhantomData }
    }

    /// Adding water to an empty heater half-fills it.
    pub fn add_water(self) -> (h: Heater<Medium>) {
        Heater { _marker: PhantomData }
    }
}

impl Heater<Medium> {
    /// Draining a half-full heater empties it.
    pub fn drain(self) -> (h: Heater<Low>) {
        Heater { _marker: PhantomData }
    }

    /// Filling a half-full heater tops it up.
    pub fn fill(self) -> (h: Heater<High>) {
        Heater { _marker: PhantomData }
    }
}

impl Heater<High> {
    /// Removing water from a full heater half-empties it.
    pub fn remove_water(self) -> (h: Heater<Medium>) {
        Heater { _marker: PhantomData }
    }
}

} // verus!
