//! The pins of port 0, each with its number in its type.

use crate::gpio::{
    disconnect_script, is_high_state, level_script, low_in, mode_script, mode_script_of,
    reads_low, record_disconnect, record_level, record_mode, AlternateFunction, Disconnected,
    Floating, Input, Output, Pin, PinState, PullDown, PullUp, PIN_COUNT,
};
use crate::gpio::partially_erased::PartiallyErasedPin;
use crate::pac::GPIO;
use crate::script::Script;
use std::marker::PhantomData;
use vstd::prelude::*;

verus! {

/// The pin number `N` of the port, in the mode `MODE`.
pub struct PortPin<const N: u8, MODE> {
    _mode: PhantomData<MODE>,
}

#[allow(non_camel_case_types)]
pub type P0_00<MODE> = PortPin<0, MODE>;

#[allow(non_camel_case_types)]
pub type P0_01<MODE> = PortPin<1, MODE>;

#[allow(non_camel_case_types)]
pub type P0_02<MODE> = PortPin<2, MODE>;

#[allow(non_camel_case_types)]
pub type P0_03<MODE> = PortPin<3, MODE>;

#[allow(non_camel_case_types)]
pub type P0_04<MODE> = PortPin<4, MODE>;

#[allow(non_camel_case_types)]
pub type P0_05<MODE> = PortPin<5, MODE>;

#[allow(non_camel_case_types)]
pub type P0_06<MODE> = PortPin<6, MODE>;

#[allow(non_camel_case_types)]
pub type P0_07<MODE> = PortPin<7, MODE>;

#[allow(non_camel_case_types)]
pub type P0_08<MODE> = PortPin<8, MODE>;

#[allow(non_camel_case_types)]
pub type P0_09<MODE> = PortPin<9, MODE>;

#[allow(non_camel_case_types)]
pub type P0_10<MODE> = PortPin<10, MODE>;

#[allow(non_camel_case_types)]
pub type P0_11<MODE> = PortPin<11, MODE>;

/// The pins of the port, as they are after reset.
pub struct Parts {
    /// Pin 0.
    pub p0_00: P0_00<Disconnected>,
    /// Pin 1.
    pub p0_01: P0_01<Disconnected>,
    /// Pin 2.
    pub p0_02: P0_02<Disconnected>,
    /// Pin 3.
    pub p0_03: P0_03<Disconnected>,
    /// Pin 4.
    pub p0_04: P0_04<Disconnected>,
    /// Pin 5.
    pub p0_05: P0_05<Disconnected>,
    /// Pin 6.
    pub p0_06: P0_06<Disconnected>,
    /// Pin 7.
    pub p0_07: P0_07<Disconnected>,
    /// Pin 8.
    pub p0_08: P0_08<Disconnected>,
    /// Pin 9.
    pub p0_09: P0_09<Disconnected>,
    /// Pin 10.
    pub p0_10: P0_10<Disconnected>,
    /// Pin 11.
    pub p0_11: P0_11<Disconnected>,
}

impl Parts {
    /// Split the port into its pins.
    pub fn new(_gpio: GPIO) -> Self {
        Self {
            p0_00: PortPin { _mode: PhantomData },
            p0_01: PortPin { _mode: PhantomData },
            p0_02: PortPin { _mode: PhantomData },
            p0_03: PortPin { _mode: PhantomData },
            p0_04: PortPin { _mode: PhantomData },
            p0_05: PortPin { _mode: PhantomData },
            p0_06: PortPin { _mode: PhantomData },
            p0_07: PortPin { _mode: PhantomData },
            p0_08: PortPin { _mode: PhantomData },
            p0_09: PortPin { _mode: PhantomData },
            p0_10: PortPin { _mode: PhantomData },
            p0_11: PortPin { _mode: PhantomData },
        }
    }
}

impl<const N: u8, MODE> PortPin<N, MODE> {
    #[verifier::type_invariant]
    spec fn on_port(self) -> bool {
        N < PIN_COUNT
    }

    fn number(&self) -> (n: u8)
        ensures
            n == N,
            n < PIN_COUNT,
    {
        proof {
            use_type_invariant(self);
        }
        N
    }

    /// Make the pin a floating input.
    pub fn into_floating_input(self, script: &mut Script) -> (pin: PortPin<N, Input<Floating>>)
        ensures
            final(script)@ == old(script)@ + mode_script_of::<Input<Floating>>(N),
    {
        let n: u8 = self.number();
        record_mode(n, 0b00, 0, script);
        PortPin { _mode: PhantomData }
    }

    /// Make the pin an input with the pull-down resistor.
    pub fn into_pulldown_input(self, script: &mut Script) -> (pin: PortPin<N, Input<PullDown>>)
        ensures
            final(script)@ == old(script)@ + mode_script_of::<Input<PullDown>>(N),
    {
        let n: u8 = self.number();
        record_mode(n, 0b10, 0, script);
        PortPin { _mode: PhantomData }
    }

    /// Make the pin an input with the pull-up resistor.
    pub fn into_pullup_input(self, script: &mut Script) -> (pin: PortPin<N, Input<PullUp>>)
        ensures
            final(script)@ == old(script)@ + mode_script_of::<Input<PullUp>>(N),
    {
        let n: u8 = self.number();
        record_mode(n, 0b01, 0, script);
        PortPin { _mode: PhantomData }
    }

    /// Make the pin a push-pull output: the level first, the mode after it.
    pub fn into_output(self, initial_output: PinState, script: &mut Script) -> (pin: PortPin<N, Output>)
        ensures
            final(script)@ == old(script)@ + level_script(N, is_high_state(initial_output))
                + mode_script_of::<Output>(N),
    {
        let n: u8 = self.number();
        match initial_output {
            PinState::Low => record_level(n, false, script),
            PinState::High => record_level(n, true, script),
        }
        record_mode(n, 0b11, 0, script);
        PortPin { _mode: PhantomData }
    }

    /// Hand the pin to the peripheral function `PID`, with the pull
    /// configuration `PUPD`.
    pub fn into_alternate<const PID: u8, const PUPD: u8>(self, script: &mut Script) -> (pin: PortPin<
        N,
        AlternateFunction<PID, PUPD>,
    >)
        ensures
            final(script)@ == old(script)@ + mode_script(N, PUPD, PID),
    {
        let n: u8 = self.number();
        record_mode(n, PUPD, PID, script);
        PortPin { _mode: PhantomData }
    }

    /// Hand the pin to the peripheral function `PID` as an output: the level
    /// first, the mode after it.
    pub fn into_alternate_with_state<const PID: u8>(
        self,
        initial_output: PinState,
        script: &mut Script,
    ) -> (pin: PortPin<N, AlternateFunction<PID, 0b11>>)
        ensures
            final(script)@ == old(script)@ + level_script(N, is_high_state(initial_output))
                + mode_script(N, 0b11, PID),
    {
        let n: u8 = self.number();
        match initial_output {
            PinState::Low => record_level(n, false, script),
            PinState::High => record_level(n, true, script),
        }
        record_mode(n, 0b11, PID, script);
        PortPin { _mode: PhantomData }
    }

    /// Disconnect the pin: its mode register takes its reset value.
    pub fn into_disconnected(self, script: &mut Script) -> (pin: PortPin<N, Disconnected>)
        ensures
            final(script)@ == old(script)@ + disconnect_script(N),
    {
        let n: u8 = self.number();
        record_disconnect(n, script);
        PortPin { _mode: PhantomData }
    }

    /// Give up the number in the type: the handle that comes back has the
    /// same number and the same mode, and fits where any pin will do.
    pub fn degrade(self) -> (pin: Pin<MODE>)
        ensures
            pin.id() == N,
            pin == Pin::<MODE>::numbered(N),
    {
        let n: u8 = self.number();
        Pin::new(n)
    }
}

impl<const N: u8, MODE> PortPin<N, MODE> {
    /// Give up the number in the type, for a handle that keeps it in a
    /// field.
    pub fn erase_number(self) -> (pin: PartiallyErasedPin<MODE>)
        ensures
            pin.id() == N,
    {
        let n: u8 = self.number();
        PartiallyErasedPin::new(n)
    }
}

impl<const N: u8, MODE> From<PortPin<N, MODE>> for Pin<MODE> {
    fn from(value: PortPin<N, MODE>) -> (pin: Self) {
        value.degrade()
    }
}

impl<const N: u8, MODE> vstd::std_specs::convert::FromSpecImpl<PortPin<N, MODE>> for Pin<MODE> {
    open spec fn obeys_from_spec() -> bool {
        true
    }

    open spec fn from_spec(value: PortPin<N, MODE>) -> Self {
        Pin::<MODE>::numbered(N)
    }
}

impl<const N: u8, MODE> PortPin<N, Input<MODE>> {
    /// Whether the pin is high in `data`, the word read from the port data
    /// register.
    pub fn is_high(&self, data: u32) -> (high: bool)
        ensures
            high == !low_in(data, N),
    {
        !self.is_low(data)
    }

    /// Whether the pin is low in `data`.
    pub fn is_low(&self, data: u32) -> (low: bool)
        ensures
            low == low_in(data, N),
    {
        reads_low(data, self.number())
    }
}

impl<const N: u8> PortPin<N, Output> {
    /// Drive the pin high.
    pub fn set_high(&mut self, script: &mut Script)
        ensures
            final(script)@ == old(script)@ + level_script(N, true),
    {
        record_level(self.number(), true, script);
    }

    /// Drive the pin low.
    pub fn set_low(&mut self, script: &mut Script)
        ensures
            final(script)@ == old(script)@ + level_script(N, false),
    {
        record_level(self.number(), false, script);
    }

    /// Whether the pin is driven high in `data`, the word read from the port
    /// data register.
    pub fn is_set_high(&self, data: u32) -> (high: bool)
        ensures
            high == !low_in(data, N),
    {
        !self.is_set_low(data)
    }

    /// Whether the pin is driven low in `data`.
    pub fn is_set_low(&self, data: u32) -> (low: bool)
        ensures
            low == low_in(data, N),
    {
        reads_low(data, self.number())
    }
}

} // verus!
