//! The interrupt controller.

use crate::pac::{NVIC, TIMER0};
use crate::device::{lemma_reading_push, reading};
use crate::regs::{modify, overwrite, Field, Instr, Update};
use crate::script::Script;
use vstd::prelude::*;

verus! {

/// The interrupt vectors of the peripherals.
#[derive(Clone, Copy, Debug, PartialEq, Eq, Structural)]
pub enum Irq {
    /// I2C controller.
    I2c,
    /// Analog to digital converter.
    Adc,
    /// Port interrupt, through debounce.
    Gpio0,
    /// Port interrupt, through debounce.
    Gpio1,
    /// Port interrupt, through debounce.
    Gpio2,
    /// Port interrupt, through debounce.
    Gpio3,
    /// Port interrupt, through debounce.
    Gpio4,
    /// Software timer (timer 0).
    SwTim0,
    /// Wakeup capture timer and quadrature decoder, combined.
    WakupQuadec,
}

/// The number of a vector.
pub open spec fn irq_number(irq: Irq) -> u8 {
    match irq {
        Irq::I2c => 4,
        Irq::Adc => 6,
        Irq::Gpio0 => 10,
        Irq::Gpio1 => 11,
        Irq::Gpio2 => 12,
        Irq::Gpio3 => 13,
        Irq::Gpio4 => 14,
        Irq::SwTim0 => 15,
        Irq::WakupQuadec => 16,
    }
}

/// The bit that stands for a vector in the controller's strobe registers.
pub open spec fn irq_bit(irq: Irq) -> u32 {
    1u32 << irq_number(irq)
}

impl Irq {
    /// The number of the vector.
    pub fn number(self) -> (n: u16)
        ensures
            n == irq_number(self),
    {
        match self {
            Irq::I2c => 4,
            Irq::Adc => 6,
            Irq::Gpio0 => 10,
            Irq::Gpio1 => 11,
            Irq::Gpio2 => 12,
            Irq::Gpio3 => 13,
            Irq::Gpio4 => 14,
            Irq::SwTim0 => 15,
            Irq::WakupQuadec => 16,
        }
    }

    /// The vector's bit in the strobe registers.
    pub fn mask(self) -> (m: u32)
        ensures
            m == irq_bit(self),
    {
        let n: u16 = self.number();
        1u32 << (n as u8)
    }
}

/// Turns the controller's token into its driver.
pub trait NvicExt {
    /// The driver, in place of the token.
    fn constrain(self) -> Nvic;
}

impl NvicExt for NVIC {
    fn constrain(self) -> (driver: Nvic)
        ensures
            driver.token() == self,
    {
        Nvic { nvic: self }
    }
}

/// Driver of the interrupt controller.
pub struct Nvic {
    nvic: NVIC,
}

/// The access that gives a vector its priority.
pub open spec fn priority_script(irq: Irq, priority: u8) -> Seq<Instr> {
    seq![modify(Field::IrqPriority(irq_number(irq)), Update::Store(priority as u32))]
}

/// The strobe that enables a vector.
pub open spec fn enable_script(irq: Irq) -> Seq<Instr> {
    seq![overwrite(Field::NvicIser, irq_bit(irq))]
}

/// The strobe that disables a vector.
pub open spec fn disable_script(irq: Irq) -> Seq<Instr> {
    seq![overwrite(Field::NvicIcer, irq_bit(irq))]
}

/// The strobe that clears every pending vector.
pub open spec fn clear_pending_script() -> Seq<Instr> {
    seq![overwrite(Field::NvicIcpr, 0xFFFF_FFFF)]
}

pub(crate) fn record_priority(irq: Irq, priority: u8, script: &mut Script)
    ensures
        final(script)@ == old(script)@ + priority_script(irq, priority),
{
    let n: u16 = irq.number();
    script.modify(Field::IrqPriority(n as u8), Update::Store(priority as u32));
    assert(old(script)@.push(priority_script(irq, priority)[0]) =~= old(script)@
        + priority_script(irq, priority));
}

pub(crate) fn record_enable(irq: Irq, script: &mut Script)
    ensures
        final(script)@ == old(script)@ + enable_script(irq),
{
    script.overwrite(Field::NvicIser, irq.mask());
    assert(old(script)@.push(enable_script(irq)[0]) =~= old(script)@ + enable_script(irq));
}

pub(crate) fn record_disable(irq: Irq, script: &mut Script)
    ensures
        final(script)@ == old(script)@ + disable_script(irq),
{
    script.overwrite(Field::NvicIcer, irq.mask());
    assert(old(script)@.push(disable_script(irq)[0]) =~= old(script)@ + disable_script(irq));
}

pub(crate) fn record_clear_pending(script: &mut Script)
    ensures
        final(script)@ == old(script)@ + clear_pending_script(),
{
    script.overwrite(Field::NvicIcpr, 0xFFFF_FFFF);
    assert(old(script)@.push(clear_pending_script()[0]) =~= old(script)@
        + clear_pending_script());
}

impl Nvic {
    /// The token that the driver was made from, and holds.
    pub closed spec fn token(&self) -> NVIC {
        self.nvic
    }

    /// Give a vector its priority.
    pub fn set_priority(&mut self, interrupt: Irq, priority: u8, script: &mut Script)
        ensures
            final(script)@ == old(script)@ + priority_script(interrupt, priority),
    {
        record_priority(interrupt, priority, script);
    }

    /// Enable a vector.
    pub fn enable_irq(&self, interrupt: Irq, script: &mut Script)
        ensures
            final(script)@ == old(script)@ + enable_script(interrupt),
    {
        record_enable(interrupt, script);
    }

    /// Disable a vector.
    pub fn disable_irq(&self, interrupt: Irq, script: &mut Script)
        ensures
            final(script)@ == old(script)@ + disable_script(interrupt),
    {
        record_disable(interrupt, script);
    }

    /// Clear every pending vector, whatever is pending.
    pub fn clear_pending_interrupts(&mut self, script: &mut Script)
        ensures
            final(script)@ == old(script)@ + clear_pending_script(),
    {
        record_clear_pending(script);
    }
}

/// A peripheral that raises one vector.
pub trait Interrupt {
    /// The vector that the peripheral raises.
    spec fn irq() -> Irq;

    /// Give the peripheral's vector its priority.
    fn set_priority(nvic: &mut Nvic, prio: u8, script: &mut Script)
        ensures
            final(script)@ == old(script)@ + priority_script(Self::irq(), prio),
    ;

    /// Enable the peripheral's vector.
    fn enable(script: &mut Script)
        ensures
            final(script)@ == old(script)@ + enable_script(Self::irq()),
    ;

    /// Disable the peripheral's vector.
    fn disable(script: &mut Script)
        ensures
            final(script)@ == old(script)@ + disable_script(Self::irq()),
    ;
}

impl Interrupt for TIMER0 {
    open spec fn irq() -> Irq {
        Irq::SwTim0
    }

    fn set_priority(nvic: &mut Nvic, prio: u8, script: &mut Script) {
        nvic.set_priority(Irq::SwTim0, prio, script);
    }

    fn enable(script: &mut Script) {
        record_enable(Irq::SwTim0, script);
    }

    fn disable(script: &mut Script) {
        record_disable(Irq::SwTim0, script);
    }
}

/// The numbers of the vectors fit the strobe registers, and no two vectors
/// share a number.
pub proof fn lemma_irq_numbers(first: Irq, second: Irq)
    ensures
        irq_number(first) < 32,
        irq_number(first) == irq_number(second) ==> first == second,
{
}

/// Enabling a vector sets its bit among the enabled vectors and leaves the
/// priorities and the pending vectors alone; disabling it clears the bit
/// again.
pub proof fn lemma_enable_and_disable(history: Seq<Instr>, irq: Irq)
    ensures
        reading(history + enable_script(irq), Field::IrqEnabled) & irq_bit(irq) != 0,
        reading(history + enable_script(irq), Field::IrqPending) == reading(
            history,
            Field::IrqPending,
        ),
        reading(history + enable_script(irq) + disable_script(irq), Field::IrqEnabled) & irq_bit(
            irq,
        ) == 0,
{
    let on = enable_script(irq);
    let off = disable_script(irq);
    assert(history + on =~= history.push(on[0]));
    assert(history + on + off =~= history.push(on[0]).push(off[0]));
    lemma_reading_push(history, on[0], Field::IrqEnabled);
    lemma_reading_push(history, on[0], Field::IrqPending);
    lemma_reading_push(history.push(on[0]), off[0], Field::IrqEnabled);
    let n = irq_number(irq);
    let before = reading(history, Field::IrqEnabled);
    assert((before | (1u32 << n)) & (1u32 << n) != 0) by (bit_vector)
        requires
            n < 32,
    ;
    let between = reading(history.push(on[0]), Field::IrqEnabled);
    assert((between & !(1u32 << n)) & (1u32 << n) == 0) by (bit_vector)
        requires
            n < 32,
    ;
}

/// Clearing the pending vectors leaves none pending, whatever was pending,
/// and leaves the enabled vectors as they were.
pub proof fn lemma_clear_pending_clears_all(history: Seq<Instr>)
    ensures
        reading(history + clear_pending_script(), Field::IrqPending) == 0,
        reading(history + clear_pending_script(), Field::IrqEnabled) == reading(
            history,
            Field::IrqEnabled,
        ),
{
    let s = clear_pending_script();
    assert(history + s =~= history.push(s[0]));
    lemma_reading_push(history, s[0], Field::IrqPending);
    lemma_reading_push(history, s[0], Field::IrqEnabled);
    let before = reading(history, Field::IrqPending);
    assert(before & !0xFFFF_FFFFu32 == 0) by (bit_vector);
}

/// A vector has the priority that it was given last.
pub proof fn lemma_priority_is_stored(history: Seq<Instr>, irq: Irq, priority: u8)
    ensures
        reading(history + priority_script(irq, priority), Field::IrqPriority(irq_number(irq)))
            == priority,
{
    let s = priority_script(irq, priority);
    assert(history + s =~= history.push(s[0]));
    lemma_reading_push(history, s[0], Field::IrqPriority(irq_number(irq)));
}

} // verus!
