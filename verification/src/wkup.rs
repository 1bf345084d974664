//! The wakeup controller.

use crate::crg_top::{gate_script, CrgTop};
use crate::nvic::{enable_script, priority_script, Irq, Nvic};
use crate::pac::WKUP;
use crate::regs::{modify, Field, Instr, Update};
use crate::script::Script;
use vstd::prelude::*;

verus! {

/// Turns the controller's token into its driver.
pub trait WkupExt {
    /// The driver, in place of the token.
    fn constrain(self) -> Wkup;
}

impl WkupExt for WKUP {
    fn constrain(self) -> (driver: Wkup)
        ensures
            driver.token() == self,
    {
        Wkup { wkup: self }
    }
}

/// The level of a pin that counts as an event.
#[derive(Clone, Copy, Debug, PartialEq, Eq, Structural)]
pub enum Polarity {
    High,
    Low,
}

/// Driver of the wakeup controller.
pub struct Wkup {
    wkup: WKUP,
}

/// The bit of a pin in the wakeup controller's pin registers.
pub open spec fn wkup_bit(pin: u8) -> u32 {
    1u32 << pin
}

/// How the polarity register changes for a pin: its bit is set for
/// [`Polarity::High`] and cleared for [`Polarity::Low`].
pub open spec fn polarity_update(pin: u8, polarity: Polarity) -> Update {
    match polarity {
        Polarity::High => Update::Raise(wkup_bit(pin)),
        Polarity::Low => Update::Lower(wkup_bit(pin)),
    }
}

/// What arming the wakeup interrupt for one pin records, after the clock
/// gate of the controller is open: the event counter reset, the debounce
/// time (six bits of it), the pin's polarity, the number of events less one,
/// the controller's interrupt enabled, the pin selected; then the vector at
/// priority 2, enabled.
pub open spec fn arm_script(pin: u8, polarity: Polarity, events_num: u8, debounce_time: u8) -> Seq<
    Instr,
> {
    seq![
        modify(Field::WkupCntrRst, Update::Store(1)),
        modify(Field::WkupDebValue, Update::Store((debounce_time & 0x3f) as u32)),
        modify(Field::WkupPolGpio, polarity_update(pin, polarity)),
        modify(Field::WkupCompare, Update::Store((events_num - 1) as u32)),
        modify(Field::WkupEnableIrq, Update::Store(1)),
        modify(Field::WkupSelectGpio, Update::Raise(wkup_bit(pin))),
    ] + priority_script(Irq::WakupQuadec, 2) + enable_script(Irq::WakupQuadec)
}

/// What the handler of the wakeup interrupt records before anything else:
/// the interrupt acknowledged, and no more of its kind.
pub open spec fn acknowledge_script() -> Seq<Instr> {
    seq![
        modify(Field::WkupIrqStatus, Update::Store(1)),
        modify(Field::WkupEnableIrq, Update::Store(0)),
    ]
}

pub(crate) fn record_arm(
    pin: u8,
    polarity: Polarity,
    events_num: u8,
    debounce_time: u8,
    script: &mut Script,
)
    requires
        events_num > 0,
        pin < 16,
    ensures
        final(script)@ == old(script)@ + arm_script(pin, polarity, events_num, debounce_time),
{
    let mask: u32 = 1u32 << pin;
    script.modify(Field::WkupCntrRst, Update::Store(1));
    script.modify(Field::WkupDebValue, Update::Store((debounce_time & 0x3f) as u32));
    match polarity {
        Polarity::High => script.modify(Field::WkupPolGpio, Update::Raise(mask)),
        Polarity::Low => script.modify(Field::WkupPolGpio, Update::Lower(mask)),
    }
    script.modify(Field::WkupCompare, Update::Store((events_num - 1) as u32));
    script.modify(Field::WkupEnableIrq, Update::Store(1));
    script.modify(Field::WkupSelectGpio, Update::Raise(mask));
    crate::nvic::record_priority(Irq::WakupQuadec, 2, script);
    crate::nvic::record_enable(Irq::WakupQuadec, script);
    assert(script@ =~= old(script)@ + arm_script(pin, polarity, events_num, debounce_time));
}

/// What the handler of the wakeup interrupt does to the controller before
/// it calls the registered handler.
pub fn acknowledge_interrupt(script: &mut Script)
    ensures
        final(script)@ == old(script)@ + acknowledge_script(),
{
    script.modify(Field::WkupIrqStatus, Update::Store(1));
    script.modify(Field::WkupEnableIrq, Update::Store(0));
    assert(script@ =~= old(script)@ + acknowledge_script());
}

impl Wkup {
    /// The driver, in place of the token: it holds the token from here on.
    pub fn new(wkup: WKUP) -> (driver: Self)
        ensures
            driver.token() == wkup,
    {
        Self { wkup }
    }

    /// The token that the driver was made from, and holds.
    pub closed spec fn token(&self) -> WKUP {
        self.wkup
    }

    /// Raise the wakeup interrupt after `events_num` events on `pin`.
    pub fn enable_irq(
        &mut self,
        crg_top: &mut CrgTop,
        nvic: &mut Nvic,
        pin: u8,
        polarity: Polarity,
        events_num: u8,
        debounce_time: u8,
        script: &mut Script,
    )
        requires
            events_num > 0,
            pin < 16,
        ensures
            final(script)@ == old(script)@ + gate_script(Field::WakeupctEnable, true) + arm_script(
                pin,
                polarity,
                events_num,
                debounce_time,
            ),
    {
        crg_top.enable_peripheral::<WKUP>(script);
        record_arm(pin, polarity, events_num, debounce_time, script);
    }
}

} // verus!
