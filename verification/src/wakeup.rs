//! The wakeup controller, as a controller that is made with `new`.

use crate::clock::{ClockController, PeripheralClock};
use crate::crg_top::gate_script;
use crate::interrupt::{AlreadyRegistered, HandlerSlot, InterruptController};
use crate::pac::WKUP;
use crate::regs::Field;
use crate::script::Script;
use crate::wkup::{arm_script, record_arm};
use vstd::prelude::*;

pub use crate::wkup::Polarity;

verus! {

/// Controller of the wakeup controller.
pub struct WakeupController {
    wkup: WKUP,
}

impl WakeupController {
    /// The controller, in place of the token, which it holds from here on.
    pub fn new(wkup: WKUP) -> (controller: Self)
        ensures
            controller.token() == wkup,
    {
        Self { wkup }
    }

    /// The token that the controller was made from, and holds.
    pub closed spec fn token(&self) -> WKUP {
        self.wkup
    }

    /// Register the handler of the wakeup interrupt, where none is
    /// registered yet.
    pub fn register_irq_handler<H>(&mut self, slot: &mut HandlerSlot<H>, handler: H) -> (done:
        Result<(), AlreadyRegistered>)
        ensures
            old(slot)@.is_none() ==> done.is_ok() && final(slot)@ == Some(handler),
            old(slot)@.is_some() ==> done == Err::<(), AlreadyRegistered>(AlreadyRegistered)
                && final(slot)@ == old(slot)@,
    {
        slot.register(handler)
    }

    /// Raise the wakeup interrupt after `events_num` events on `pin`.
    pub fn enable_irq(
        &mut self,
        clock_controller: &mut ClockController,
        interrupt_controller: &mut InterruptController,
        pin: u8,
        polarity: Polarity,
        events_num: u8,
        debounce_time: u8,
        script: &mut Script,
    )
        requires
            events_num > 0,
            pin < 16,
        ensures
            final(script)@ == old(script)@ + gate_script(Field::WakeupctEnable, true) + arm_script(
                pin,
                polarity,
                events_num,
                debounce_time,
            ),
    {
        clock_controller.set_peripheral_clock_state(
            PeripheralClock::WakeupController,
            true,
            script,
        );
        record_arm(pin, polarity, events_num, debounce_time, script);
    }
}

} // verus!
