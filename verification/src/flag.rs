//! The switch that tells a tracking loop whether to keep sampling.

use vstd::prelude::*;

verus! {

/// A level-triggered on/off signal: it holds one boolean, with no queue and
/// no history. Its methods are the only way to read or change it.
#[derive(Debug)]
pub struct TrackingFlag {
    on: bool,
}

impl View for TrackingFlag {
    type V = bool;

    closed spec fn view(&self) -> bool {
        self.on
    }
}

impl TrackingFlag {
    /// A flag that is switched off.
    pub fn new() -> (flag: TrackingFlag)
        ensures
            !flag@,
    {
        TrackingFlag { on: false }
    }

    /// Stores `value`.
    pub fn set(&mut self, value: bool)
        ensures
            final(self)@ == value,
    {
        self.on = value;
    }

    /// Reads the stored value.
    pub fn get(&self) -> (value: bool)
        ensures
            value == self@,
    {
        self.on
    }

    /// Flips the stored value and returns the new one.
    pub fn toggle(&mut self) -> (value: bool)
        ensures
            final(self)@ == !old(self)@,
            value == final(self)@,
    {
        self.on = !self.on;
        self.on
    }
}

} // verus!
