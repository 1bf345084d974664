//! Pins whose number is erased from the type.

use crate::gpio::{
    is_high_state, level_script, low_in, reads_low, record_level, Input, Output, PinState,
    PIN_COUNT,
};
use crate::script::Script;
use std::marker::PhantomData;
use vstd::prelude::*;

verus! {

/// Short name of [`PartiallyErasedPin`].
pub type PEPin<MODE> = PartiallyErasedPin<MODE>;

/// A pin that keeps its mode in its type and its number in a field, so that
/// pins of different numbers fit in one collection.
pub struct PartiallyErasedPin<MODE> {
    i: u8,
    _mode: PhantomData<MODE>,
}

impl<MODE> PartiallyErasedPin<MODE> {
    #[verifier::type_invariant]
    spec fn on_port(self) -> bool {
        self.i < PIN_COUNT
    }

    /// The number of the pin on the port.
    pub closed spec fn id(&self) -> u8 {
        self.i
    }

    pub(crate) fn new(i: u8) -> (p: Self)
        requires
            i < PIN_COUNT,
        ensures
            p.id() == i,
    {
        Self { i, _mode: PhantomData }
    }

    /// The number of the pin on the port: less than [`PIN_COUNT`].
    pub fn pin_id(&self) -> (n: u8)
        ensures
            n == self.id(),
            n < PIN_COUNT,
    {
        proof {
            use_type_invariant(self);
        }
        self.i
    }

    /// The number of the port, of which there is one.
    pub fn port_id(&self) -> (n: u8)
        ensures
            n == 0,
    {
        0
    }
}

impl PartiallyErasedPin<Output> {
    /// Drive the pin high.
    pub fn set_high(&mut self, script: &mut Script)
        ensures
            final(self).id() == old(self).id(),
            final(script)@ == old(script)@ + level_script(old(self).id(), true),
    {
        record_level(self.pin_id(), true, script);
    }

    /// Drive the pin low.
    pub fn set_low(&mut self, script: &mut Script)
        ensures
            final(self).id() == old(self).id(),
            final(script)@ == old(script)@ + level_script(old(self).id(), false),
    {
        record_level(self.pin_id(), false, script);
    }

    /// The level that the pin is driven to in `data`, the word read from the
    /// port data register.
    pub fn get_state(&self, data: u32) -> (state: PinState)
        ensures
            is_high_state(state) == !low_in(data, self.id()),
    {
        if self.is_set_low(data) {
            PinState::Low
        } else {
            PinState::High
        }
    }

    /// Drive the pin to `state`.
    pub fn set_state(&mut self, state: PinState, script: &mut Script)
        ensures
            final(self).id() == old(self).id(),
            final(script)@ == old(script)@ + level_script(old(self).id(), is_high_state(state)),
    {
        match state {
            PinState::Low => self.set_low(script),
            PinState::High => self.set_high(script),
        }
    }

    /// Whether the pin is driven high in `data`.
    pub fn is_set_high(&self, data: u32) -> (high: bool)
        ensures
            high == !low_in(data, self.id()),
    {
        !self.is_set_low(data)
    }

    /// Whether the pin is driven low in `data`.
    pub fn is_set_low(&self, data: u32) -> (low: bool)
        ensures
            low == low_in(data, self.id()),
    {
        reads_low(data, self.pin_id())
    }

    /// Drive the pin to the level opposite to the one it has in `data`.
    pub fn toggle(&mut self, data: u32, script: &mut Script)
        ensures
            final(self).id() == old(self).id(),
            final(script)@ == old(script)@ + level_script(
                old(self).id(),
                low_in(data, old(self).id()),
            ),
    {
        if self.is_set_low(data) {
            self.set_high(script)
        } else {
            self.set_low(script)
        }
    }
}

impl<MODE> PartiallyErasedPin<Input<MODE>> {
    /// Whether the input is high in `data`, the word read from the port data
    /// register.
    pub fn is_high(&self, data: u32) -> (high: bool)
        ensures
            high == !low_in(data, self.id()),
    {
        !self.is_low(data)
    }

    /// Whether the input is low in `data`.
    pub fn is_low(&self, data: u32) -> (low: bool)
        ensures
            low == low_in(data, self.id()),
    {
        reads_low(data, self.pin_id())
    }
}

} // verus!
