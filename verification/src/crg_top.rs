//! The clock and reset generator: peripheral clock gates, bus clock dividers,
//! and the status and control that the sleep sequence needs.

use crate::device::{lemma_reading_push, reading};
use crate::pac::{CRG_TOP, I2C, OTPC, QUADEC, SPI, TIMER0, TIMER1, UART, UART2, WKUP};
use crate::regs::{and, bit, modify, modify_masked, Field, Instr, Update};
use crate::script::{word, Script};
use vstd::prelude::*;

verus! {

/// The peripheral clocks that the gating register switches.
#[derive(Clone, Copy, Debug, PartialEq, Eq, Structural)]
pub enum PeripheralClock {
    QuadratureDecoder,
    Spi,
    Uart1,
    Uart2,
    I2c,
    WakeupController,
    Timer,
}

/// The field that switches a peripheral clock.
pub open spec fn gate_of(clock: PeripheralClock) -> Field {
    match clock {
        PeripheralClock::QuadratureDecoder => Field::QuadEnable,
        PeripheralClock::Spi => Field::SpiEnable,
        PeripheralClock::Uart1 => Field::Uart1Enable,
        PeripheralClock::Uart2 => Field::Uart2Enable,
        PeripheralClock::I2c => Field::I2cEnable,
        PeripheralClock::WakeupController => Field::WakeupctEnable,
        PeripheralClock::Timer => Field::TmrEnable,
    }
}

/// The bit of a peripheral clock in the word of the gating register.
pub open spec fn mask_of(clock: PeripheralClock) -> u16 {
    match clock {
        PeripheralClock::QuadratureDecoder => 0x0800,
        PeripheralClock::Spi => 0x0400,
        PeripheralClock::Uart1 => 0x0080,
        PeripheralClock::Uart2 => 0x0040,
        PeripheralClock::I2c => 0x0020,
        PeripheralClock::WakeupController => 0x0010,
        PeripheralClock::Timer => 0x0008,
    }
}

impl PeripheralClock {
    /// The field that switches this clock.
    pub fn gate(self) -> (field: Field)
        ensures
            field == gate_of(self),
    {
        match self {
            PeripheralClock::QuadratureDecoder => Field::QuadEnable,
            PeripheralClock::Spi => Field::SpiEnable,
            PeripheralClock::Uart1 => Field::Uart1Enable,
            PeripheralClock::Uart2 => Field::Uart2Enable,
            PeripheralClock::I2c => Field::I2cEnable,
            PeripheralClock::WakeupController => Field::WakeupctEnable,
            PeripheralClock::Timer => Field::TmrEnable,
        }
    }

    /// The bit of this clock in the word of the gating register.
    pub fn mask(self) -> (m: u16)
        ensures
            m == mask_of(self),
    {
        match self {
            PeripheralClock::QuadratureDecoder => 0x0800,
            PeripheralClock::Spi => 0x0400,
            PeripheralClock::Uart1 => 0x0080,
            PeripheralClock::Uart2 => 0x0040,
            PeripheralClock::I2c => 0x0020,
            PeripheralClock::WakeupController => 0x0010,
            PeripheralClock::Timer => 0x0008,
        }
    }
}

/// The access that opens or closes a clock gate. It is a read-modify-write of
/// a register that all peripherals share, so it runs with interrupts masked.
pub open spec fn gate_script(gate: Field, open: bool) -> Seq<Instr> {
    seq![modify_masked(gate, Update::Store(bit(open)))]
}

pub(crate) fn record_gate(gate: Field, open: bool, script: &mut Script)
    ensures
        final(script)@ == old(script)@ + gate_script(gate, open),
{
    script.modify_masked(gate, Update::Store(word(open)));
    assert(old(script)@.push(gate_script(gate, open)[0]) =~= old(script)@ + gate_script(
        gate,
        open,
    ));
}

/// A peripheral whose clock can be gated.
pub trait Enable {
    /// The field that switches the peripheral's clock.
    spec fn gate() -> Field;

    /// Switch the clock on.
    fn enable(script: &mut Script)
        ensures
            final(script)@ == old(script)@ + gate_script(Self::gate(), true),
    ;

    /// Switch the clock off.
    fn disable(script: &mut Script)
        ensures
            final(script)@ == old(script)@ + gate_script(Self::gate(), false),
    ;
}

impl Enable for QUADEC {
    open spec fn gate() -> Field {
        Field::QuadEnable
    }

    fn enable(script: &mut Script) {
        record_gate(Field::QuadEnable, true, script);
    }

    fn disable(script: &mut Script) {
        record_gate(Field::QuadEnable, false, script);
    }
}

impl Enable for SPI {
    open spec fn gate() -> Field {
        Field::SpiEnable
    }

    fn enable(script: &mut Script) {
        record_gate(Field::SpiEnable, true, script);
    }

    fn disable(script: &mut Script) {
        record_gate(Field::SpiEnable, false, script);
    }
}

impl Enable for UART {
    open spec fn gate() -> Field {
        Field::Uart1Enable
    }

    fn enable(script: &mut Script) {
        record_gate(Field::Uart1Enable, true, script);
    }

    fn disable(script: &mut Script) {
        record_gate(Field::Uart1Enable, false, script);
    }
}

impl Enable for UART2 {
    open spec fn gate() -> Field {
        Field::Uart2Enable
    }

    fn enable(script: &mut Script) {
        record_gate(Field::Uart2Enable, true, script);
    }

    fn disable(script: &mut Script) {
        record_gate(Field::Uart2Enable, false, script);
    }
}

impl Enable for I2C {
    open spec fn gate() -> Field {
        Field::I2cEnable
    }

    fn enable(script: &mut Script) {
        record_gate(Field::I2cEnable, true, script);
    }

    fn disable(script: &mut Script) {
        record_gate(Field::I2cEnable, false, script);
    }
}

impl Enable for WKUP {
    open spec fn gate() -> Field {
        Field::WakeupctEnable
    }

    fn enable(script: &mut Script) {
        record_gate(Field::WakeupctEnable, true, script);
    }

    fn disable(script: &mut Script) {
        record_gate(Field::WakeupctEnable, false, script);
    }
}

impl Enable for TIMER0 {
    open spec fn gate() -> Field {
        Field::TmrEnable
    }

    fn enable(script: &mut Script) {
        record_gate(Field::TmrEnable, true, script);
    }

    fn disable(script: &mut Script) {
        record_gate(Field::TmrEnable, false, script);
    }
}

impl Enable for TIMER1 {
    open spec fn gate() -> Field {
        Field::TmrEnable
    }

    fn enable(script: &mut Script) {
        record_gate(Field::TmrEnable, true, script);
    }

    fn disable(script: &mut Script) {
        record_gate(Field::TmrEnable, false, script);
    }
}

impl Enable for OTPC {
    open spec fn gate() -> Field {
        Field::OtpEnable
    }

    fn enable(script: &mut Script) {
        record_gate(Field::OtpEnable, true, script);
    }

    fn disable(script: &mut Script) {
        record_gate(Field::OtpEnable, false, script);
    }
}

/// The access that sets both bus clock dividers to `div`.
pub open spec fn amba_script(div: u8) -> Seq<Instr> {
    seq![modify(Field::PclkDiv, Update::Store(div as u32)), and(Field::HclkDiv, div as u32)]
}

/// The access that switches the debugger off.
pub open spec fn disable_dbg_script() -> Seq<Instr> {
    seq![modify(Field::DebuggerEnable, Update::Store(0))]
}

/// The access that sets the boot remap target.
pub open spec fn remap_script(remap_address: u8) -> Seq<Instr> {
    seq![modify(Field::RemapAdr0, Update::Store(remap_address as u32))]
}

/// The access that sets the power state of the three RAM banks.
pub open spec fn ram_pwr_script(ram1: u8, ram2: u8, ram3: u8) -> Seq<Instr> {
    seq![
        modify(Field::Ram1PwrCtrl, Update::Store(ram1 as u32)),
        and(Field::Ram2PwrCtrl, ram2 as u32),
        and(Field::Ram3PwrCtrl, ram3 as u32),
    ]
}

pub(crate) fn record_amba(div: u8, script: &mut Script)
    ensures
        final(script)@ == old(script)@ + amba_script(div),
{
    script.modify(Field::PclkDiv, Update::Store(div as u32));
    script.and(Field::HclkDiv, div as u32);
    assert(old(script)@.push(amba_script(div)[0]).push(amba_script(div)[1]) =~= old(script)@
        + amba_script(div));
}

pub(crate) fn record_disable_dbg(script: &mut Script)
    ensures
        final(script)@ == old(script)@ + disable_dbg_script(),
{
    script.modify(Field::DebuggerEnable, Update::Store(0));
    assert(old(script)@.push(disable_dbg_script()[0]) =~= old(script)@ + disable_dbg_script());
}

pub(crate) fn record_remap(remap_address: u8, script: &mut Script)
    ensures
        final(script)@ == old(script)@ + remap_script(remap_address),
{
    script.modify(Field::RemapAdr0, Update::Store(remap_address as u32));
    assert(old(script)@.push(remap_script(remap_address)[0]) =~= old(script)@ + remap_script(
        remap_address,
    ));
}

pub(crate) fn record_ram_pwr(ram1: u8, ram2: u8, ram3: u8, script: &mut Script)
    ensures
        final(script)@ == old(script)@ + ram_pwr_script(ram1, ram2, ram3),
{
    script.modify(Field::Ram1PwrCtrl, Update::Store(ram1 as u32));
    script.and(Field::Ram2PwrCtrl, ram2 as u32);
    script.and(Field::Ram3PwrCtrl, ram3 as u32);
    let ghost s = ram_pwr_script(ram1, ram2, ram3);
    assert(old(script)@.push(s[0]).push(s[1]).push(s[2]) =~= old(script)@ + s);
}

/// Turns the generator's token into its driver.
pub trait CrgTopExt {
    /// The driver, in place of the token.
    fn constrain(self) -> CrgTop;
}

impl CrgTopExt for CRG_TOP {
    fn constrain(self) -> (driver: CrgTop)
        ensures
            driver.token() == self,
    {
        CrgTop { crg_top: self }
    }
}

/// Driver of the clock and reset generator.
pub struct CrgTop {
    crg_top: CRG_TOP,
}

impl CrgTop {
    /// The token that the driver was made from, and holds.
    pub closed spec fn token(&self) -> CRG_TOP {
        self.crg_top
    }

    /// Open the clock gate of the peripheral `P`.
    pub fn enable_peripheral<P: Enable>(&self, script: &mut Script)
        ensures
            final(script)@ == old(script)@ + gate_script(P::gate(), true),
    {
        P::enable(script);
    }

    /// Close the clock gate of the peripheral `P`.
    pub fn disable_peripheral<P: Enable>(&self, script: &mut Script)
        ensures
            final(script)@ == old(script)@ + gate_script(P::gate(), false),
    {
        P::disable(script);
    }

    /// Switch a peripheral clock on or off.
    pub fn set_peripheral_clock_state(
        &mut self,
        clock: PeripheralClock,
        state: bool,
        script: &mut Script,
    )
        ensures
            final(script)@ == old(script)@ + gate_script(gate_of(clock), state),
    {
        record_gate(clock.gate(), state, script);
    }

    /// The slowest bus clocks: both dividers at 3.
    pub fn use_lowest_amba_clocks(&mut self, script: &mut Script)
        ensures
            final(script)@ == old(script)@ + amba_script(3),
    {
        record_amba(3, script);
    }

    /// The fastest bus clocks: both dividers at 0.
    pub fn use_highest_amba_clocks(&mut self, script: &mut Script)
        ensures
            final(script)@ == old(script)@ + amba_script(0),
    {
        record_amba(0, script);
    }

    /// Whether the debugger is up, from what [`Field::DbgIsUp`] read.
    pub fn is_dbg_up(&self, dbg_is_up: u32) -> (up: bool)
        ensures
            up == (dbg_is_up != 0),
    {
        dbg_is_up != 0
    }

    /// Switch the debugger off.
    pub fn disable_dbg(&mut self, script: &mut Script)
        ensures
            final(script)@ == old(script)@ + disable_dbg_script(),
    {
        record_disable_dbg(script);
    }

    /// The state of the clockless wakeup line, from what
    /// [`Field::ClklessWakeupStat`] read.
    pub fn clkless_wakeup_stat(&self, clkless_wakeup_stat: u32) -> (stat: bool)
        ensures
            stat == (clkless_wakeup_stat != 0),
    {
        clkless_wakeup_stat != 0
    }

    /// Whether the regulator runs in boost mode, from what
    /// [`Field::BoostSelected`] read.
    pub fn boost_selected(&self, boost_selected: u32) -> (boost: bool)
        ensures
            boost == (boost_selected != 0),
    {
        boost_selected != 0
    }

    /// Set the boot remap target.
    pub fn set_remap_addr(&self, remap_address: u8, script: &mut Script)
        ensures
            final(script)@ == old(script)@ + remap_script(remap_address),
    {
        record_remap(remap_address, script);
    }

    /// Set the power state of the three RAM banks.
    pub fn set_ram_pwr_ctrl(&self, ram1: u8, ram2: u8, ram3: u8, script: &mut Script)
        ensures
            final(script)@ == old(script)@ + ram_pwr_script(ram1, ram2, ram3),
    {
        record_ram_pwr(ram1, ram2, ram3, script);
    }
}

/// Whether a field is a clock gate.
pub open spec fn is_gate(field: Field) -> bool {
    field == Field::QuadEnable || field == Field::SpiEnable || field == Field::Uart1Enable
        || field == Field::Uart2Enable || field == Field::I2cEnable || field
        == Field::WakeupctEnable || field == Field::TmrEnable || field == Field::OtpEnable
}

/// Switching a clock leaves its gate in the state asked for and every
/// other field as it was.
pub proof fn lemma_gate_sets_only_its_bit(history: Seq<Instr>, gate: Field, open: bool, field: Field)
    requires
        is_gate(gate),
    ensures
        reading(history + gate_script(gate, open), field) == if field == gate {
            bit(open)
        } else {
            reading(history, field)
        },
{
    lemma_reading_push(history, gate_script(gate, open)[0], field);
    assert(gate_script(gate, open) =~= seq![gate_script(gate, open)[0]]);
}

/// Gating is idempotent: a second enable leaves a gate open, a second
/// disable leaves it closed, and nothing else changes either time.
pub proof fn lemma_gate_idempotent(history: Seq<Instr>, gate: Field, open: bool, field: Field)
    requires
        is_gate(gate),
    ensures
        reading(history + gate_script(gate, open) + gate_script(gate, open), field) == reading(
            history + gate_script(gate, open),
            field,
        ),
        reading(history + gate_script(gate, open) + gate_script(gate, open), gate) == bit(open),
{
    lemma_gate_sets_only_its_bit(history, gate, open, field);
    lemma_gate_sets_only_its_bit(history + gate_script(gate, open), gate, open, field);
    lemma_gate_sets_only_its_bit(history + gate_script(gate, open), gate, open, gate);
}

/// No update is lost: two gate accesses on different gates leave the same
/// register file in either order, with both gates as asked. Each access is
/// one masked read-modify-write, so these two orders are all the
/// interleavings that main line and an interrupt handler can produce.
pub proof fn lemma_gates_do_not_interfere(
    history: Seq<Instr>,
    first: Field,
    first_open: bool,
    second: Field,
    second_open: bool,
    field: Field,
)
    requires
        is_gate(first),
        is_gate(second),
        first != second,
    ensures
        reading(history + gate_script(first, first_open) + gate_script(second, second_open), field)
            == reading(
            history + gate_script(second, second_open) + gate_script(first, first_open),
            field,
        ),
        reading(history + gate_script(first, first_open) + gate_script(second, second_open), first)
            == bit(first_open),
        reading(
            history + gate_script(first, first_open) + gate_script(second, second_open),
            second,
        ) == bit(second_open),
{
    let a = gate_script(first, first_open);
    let b = gate_script(second, second_open);
    lemma_gate_sets_only_its_bit(history, first, first_open, field);
    lemma_gate_sets_only_its_bit(history + a, second, second_open, field);
    lemma_gate_sets_only_its_bit(history, second, second_open, field);
    lemma_gate_sets_only_its_bit(history + b, first, first_open, field);
    lemma_gate_sets_only_its_bit(history, first, first_open, first);
    lemma_gate_sets_only_its_bit(history + a, second, second_open, first);
    lemma_gate_sets_only_its_bit(history + a, second, second_open, second);
}

} // verus!
