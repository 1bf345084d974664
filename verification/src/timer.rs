//! Timer 0 and the triple PWM.

use crate::interrupt::{AlreadyRegistered, HandlerSlot, InterruptController};
use crate::nvic::{enable_script, priority_script, Irq};
use crate::pac::TIMER0;
use crate::regs::{and, bit, modify, overwrite, Field, Instr, Update};
use crate::script::{word, Script};
use vstd::prelude::*;

verus! {

/// The frequency of the system clock, in hertz.
pub const SYSTEM_CLOCK_FREQ: u32 = 16_000_000;

/// The frequency of the low power clock, in hertz.
pub const LOW_POWER_CLOCK_FREQ: u32 = 32_000;

/// The divider of the clock that feeds the timers.
#[derive(Clone, Copy, Debug, PartialEq, Eq, Structural)]
pub enum BaseClockDiv {
    Div1,
    Div2,
    Div4,
    Div8,
}

/// The clock that a timer counts.
#[derive(Clone, Copy, Debug, PartialEq, Eq, Structural)]
pub enum ClockSel {
    SystemClock,
    LowPowerClock,
}

/// What the PWM outputs carry while they are high.
#[derive(Clone, Copy, Debug, PartialEq, Eq, Structural)]
pub enum PwmMode {
    SystemClock,
    High,
}

/// Whether timer 0 divides its clock by ten.
#[derive(Clone, Copy, Debug, PartialEq, Eq, Structural)]
pub enum TimerClockDiv {
    Off,
    Div10,
}

/// The channels of the triple PWM.
#[derive(Clone, Copy, Debug, PartialEq, Eq, Structural)]
pub enum Timer2PwmChannel {
    Pwm2,
    Pwm3,
    Pwm4,
    Pwm5,
    Pwm6,
    Pwm7,
}

/// The code of a base clock divider in its register field.
pub open spec fn base_div_code(div: BaseClockDiv) -> u8 {
    match div {
        BaseClockDiv::Div1 => 0,
        BaseClockDiv::Div2 => 1,
        BaseClockDiv::Div4 => 2,
        BaseClockDiv::Div8 => 3,
    }
}

/// The frequency of a clock, in hertz.
pub open spec fn clock_freq(clk_sel: ClockSel) -> u32 {
    match clk_sel {
        ClockSel::SystemClock => SYSTEM_CLOCK_FREQ,
        ClockSel::LowPowerClock => LOW_POWER_CLOCK_FREQ,
    }
}

/// The number of a PWM channel.
pub open spec fn channel_number(channel: Timer2PwmChannel) -> u8 {
    match channel {
        Timer2PwmChannel::Pwm2 => 2,
        Timer2PwmChannel::Pwm3 => 3,
        Timer2PwmChannel::Pwm4 => 4,
        Timer2PwmChannel::Pwm5 => 5,
        Timer2PwmChannel::Pwm6 => 6,
        Timer2PwmChannel::Pwm7 => 7,
    }
}

/// The frequency divider of the triple PWM for a target frequency: the number
/// of clock cycles in one period, less one, cut to the sixteen bits that are
/// handed to the register.
pub open spec fn pwm_divider(clk_sel: ClockSel, freq_hz: u32) -> u16
    recommends
        0 < freq_hz <= clock_freq(clk_sel),
{
    ((clock_freq(clk_sel) / freq_hz - 1) % 0x1_0000) as u16
}

impl BaseClockDiv {
    /// The code of the divider in its register field.
    pub fn code(self) -> (code: u8)
        ensures
            code == base_div_code(self),
    {
        match self {
            BaseClockDiv::Div1 => 0,
            BaseClockDiv::Div2 => 1,
            BaseClockDiv::Div4 => 2,
            BaseClockDiv::Div8 => 3,
        }
    }
}

impl ClockSel {
    /// The frequency of the clock, in hertz.
    pub fn frequency(self) -> (hz: u32)
        ensures
            hz == clock_freq(self),
    {
        match self {
            ClockSel::SystemClock => SYSTEM_CLOCK_FREQ,
            ClockSel::LowPowerClock => LOW_POWER_CLOCK_FREQ,
        }
    }
}

impl Timer2PwmChannel {
    /// The number of the channel.
    pub fn number(self) -> (n: u8)
        ensures
            n == channel_number(self),
    {
        match self {
            Timer2PwmChannel::Pwm2 => 2,
            Timer2PwmChannel::Pwm3 => 3,
            Timer2PwmChannel::Pwm4 => 4,
            Timer2PwmChannel::Pwm5 => 5,
            Timer2PwmChannel::Pwm6 => 6,
            Timer2PwmChannel::Pwm7 => 7,
        }
    }
}

/// The access that starts or stops timer 0.
pub open spec fn run_script(on: bool) -> Seq<Instr> {
    seq![modify(Field::Tim0Ctrl, Update::Store(bit(on)))]
}

/// The access that opens the clock gate of the timers. It does not mask
/// interrupts.
pub open spec fn clock_script() -> Seq<Instr> {
    seq![modify(Field::TmrEnable, Update::Store(1))]
}

/// The access that sets the base clock divider.
pub open spec fn clock_div_script(div: BaseClockDiv) -> Seq<Instr> {
    seq![modify(Field::TmrDiv, Update::Store(base_div_code(div) as u32))]
}

/// What [`Timer0::init`] records: one access that sets clock, PWM mode and
/// divider, then the timer's vector at priority 2, enabled.
pub open spec fn init_script(clk_sel: ClockSel, pwm_mode: PwmMode, clk_div: TimerClockDiv) -> Seq<
    Instr,
> {
    seq![
        modify(Field::Tim0ClkSel, Update::Store(bit(clk_sel == ClockSel::SystemClock))),
        and(Field::PwmMode, bit(pwm_mode == PwmMode::SystemClock)),
        and(Field::Tim0ClkDiv, bit(clk_div == TimerClockDiv::Off)),
    ] + priority_script(Irq::SwTim0, 2) + enable_script(Irq::SwTim0)
}

/// The access that sets the on-counter.
pub open spec fn pwm_on_script(pwm_on: u16) -> Seq<Instr> {
    seq![modify(Field::Tim0On, Update::Store(pwm_on as u32))]
}

/// The access that sets the high reload value.
pub open spec fn pwm_high_script(pwm_high: u16) -> Seq<Instr> {
    seq![modify(Field::Tim0M, Update::Store(pwm_high as u32))]
}

/// The access that sets the low reload value.
pub open spec fn pwm_low_script(pwm_low: u16) -> Seq<Instr> {
    seq![modify(Field::Tim0N, Update::Store(pwm_low as u32))]
}

/// What [`Timer0::init_triple_pwm`] records: the clock of the triple PWM,
/// then its frequency divider.
pub open spec fn triple_pwm_script(clk_sel: ClockSel, freq_hz: u32) -> Seq<Instr> {
    seq![
        modify(Field::TriplePwmClkSel, Update::Store(bit(clk_sel == ClockSel::SystemClock))),
        modify(Field::PwmFreq, Update::Store(pwm_divider(clk_sel, freq_hz) as u32)),
    ]
}

/// The access that starts or stops the triple PWM.
pub open spec fn triple_pwm_run_script(on: bool) -> Seq<Instr> {
    seq![modify(Field::TriplePwmEnable, Update::Store(bit(on)))]
}

/// The two writes that give a channel its duty cycle: where in the period
/// the output rises, and where it falls.
pub open spec fn duty_cycle_script(channel: Timer2PwmChannel, start: u16, end: u16) -> Seq<Instr> {
    seq![
        overwrite(Field::StartCycle(channel_number(channel)), start as u32),
        overwrite(Field::EndCycle(channel_number(channel)), end as u32),
    ]
}

/// Driver of timer 0.
pub struct Timer0 {
    timer: TIMER0,
}

impl Timer0 {
    /// The driver, in place of the token: it holds the token from here on.
    pub fn new(timer: TIMER0) -> (driver: Self)
        ensures
            driver.token() == timer,
    {
        Self { timer }
    }

    /// The token that the driver was made from, and holds.
    pub closed spec fn token(&self) -> TIMER0 {
        self.timer
    }

    /// Start the timer.
    pub fn start(&mut self, script: &mut Script)
        ensures
            final(script)@ == old(script)@ + run_script(true),
    {
        script.modify(Field::Tim0Ctrl, Update::Store(1));
        assert(script@ =~= old(script)@ + run_script(true));
    }

    /// Stop the timer.
    pub fn stop(&mut self, script: &mut Script)
        ensures
            final(script)@ == old(script)@ + run_script(false),
    {
        script.modify(Field::Tim0Ctrl, Update::Store(0));
        assert(script@ =~= old(script)@ + run_script(false));
    }

    /// Open the clock gate of the timers.
    pub fn enable_clock(&mut self, script: &mut Script)
        ensures
            final(script)@ == old(script)@ + clock_script(),
    {
        script.modify(Field::TmrEnable, Update::Store(1));
        assert(script@ =~= old(script)@ + clock_script());
    }

    /// Set the divider of the clock that feeds the timers.
    pub fn set_clock_div(&mut self, div: BaseClockDiv, script: &mut Script)
        ensures
            final(script)@ == old(script)@ + clock_div_script(div),
    {
        script.modify(Field::TmrDiv, Update::Store(div.code() as u32));
        assert(script@ =~= old(script)@ + clock_div_script(div));
    }

    /// Configure the timer and enable its interrupt at priority 2.
    pub fn init(
        &mut self,
        interrupt_controller: &mut InterruptController,
        clk_sel: ClockSel,
        pwm_mode: PwmMode,
        clk_div: TimerClockDiv,
        script: &mut Script,
    )
        ensures
            final(script)@ == old(script)@ + init_script(clk_sel, pwm_mode, clk_div),
    {
        script.modify(Field::Tim0ClkSel, Update::Store(word(clk_sel == ClockSel::SystemClock)));
        script.and(Field::PwmMode, word(pwm_mode == PwmMode::SystemClock));
        script.and(Field::Tim0ClkDiv, word(clk_div == TimerClockDiv::Off));
        interrupt_controller.set_priority(Irq::SwTim0, 2, script);
        interrupt_controller.enable_irq(Irq::SwTim0, script);
        assert(script@ =~= old(script)@ + init_script(clk_sel, pwm_mode, clk_div));
    }

    /// Set the three counters that shape the PWM of timer 0, each with an
    /// access of its own: on-counter, high reload, low reload.
    pub fn set_pwm(&mut self, pwm_on: u16, pwm_high: u16, pwm_low: u16, script: &mut Script)
        ensures
            final(script)@ == old(script)@ + pwm_on_script(pwm_on) + pwm_high_script(pwm_high)
                + pwm_low_script(pwm_low),
    {
        self.set_pwm_on(pwm_on, script);
        self.set_pwm_high(pwm_high, script);
        self.set_pwm_low(pwm_low, script);
    }

    /// Set the on-counter.
    pub fn set_pwm_on(&mut self, pwm_on: u16, script: &mut Script)
        ensures
            final(script)@ == old(script)@ + pwm_on_script(pwm_on),
    {
        script.modify(Field::Tim0On, Update::Store(pwm_on as u32));
        assert(script@ =~= old(script)@ + pwm_on_script(pwm_on));
    }

    /// Set the high reload value.
    pub fn set_pwm_high(&mut self, pwm_high: u16, script: &mut Script)
        ensures
            final(script)@ == old(script)@ + pwm_high_script(pwm_high),
    {
        script.modify(Field::Tim0M, Update::Store(pwm_high as u32));
        assert(script@ =~= old(script)@ + pwm_high_script(pwm_high));
    }

    /// Set the low reload value.
    pub fn set_pwm_low(&mut self, pwm_low: u16, script: &mut Script)
        ensures
            final(script)@ == old(script)@ + pwm_low_script(pwm_low),
    {
        script.modify(Field::Tim0N, Update::Store(pwm_low as u32));
        assert(script@ =~= old(script)@ + pwm_low_script(pwm_low));
    }

    /// Register the handler of the timer's interrupt, where none is
    /// registered yet.
    pub fn register_handler<H>(&self, slot: &mut HandlerSlot<H>, handler: H) -> (done: Result<
        (),
        AlreadyRegistered,
    >)
        ensures
            old(slot)@.is_none() ==> done.is_ok() && final(slot)@ == Some(handler),
            old(slot)@.is_some() ==> done == Err::<(), AlreadyRegistered>(AlreadyRegistered)
                && final(slot)@ == old(slot)@,
    {
        slot.register(handler)
    }

    /// Select the clock of the triple PWM and set its frequency: the divider
    /// is the number of clock cycles in one period of `freq_hz`, less one.
    pub fn init_triple_pwm(&mut self, clk_sel: ClockSel, freq_hz: u32, script: &mut Script)
        requires
            0 < freq_hz <= clock_freq(clk_sel),
        ensures
            final(script)@ == old(script)@ + triple_pwm_script(clk_sel, freq_hz),
    {
        let clock: u32 = clk_sel.frequency();
        assert(clock / freq_hz >= 1) by (nonlinear_arith)
            requires
                0 < freq_hz <= clock,
        ;
        let cycles: u32 = clock / freq_hz - 1;
        let pwm_freq: u16 = (cycles % 0x1_0000) as u16;
        script.modify(Field::TriplePwmClkSel, Update::Store(word(clk_sel == ClockSel::SystemClock)));
        script.modify(Field::PwmFreq, Update::Store(pwm_freq as u32));
        assert(script@ =~= old(script)@ + triple_pwm_script(clk_sel, freq_hz));
    }

    /// Start the triple PWM.
    pub fn start_triple_pwm(&mut self, script: &mut Script)
        ensures
            final(script)@ == old(script)@ + triple_pwm_run_script(true),
    {
        script.modify(Field::TriplePwmEnable, Update::Store(1));
        assert(script@ =~= old(script)@ + triple_pwm_run_script(true));
    }

    /// Stop the triple PWM.
    pub fn stop_triple_pwm(&mut self, script: &mut Script)
        ensures
            final(script)@ == old(script)@ + triple_pwm_run_script(false),
    {
        script.modify(Field::TriplePwmEnable, Update::Store(0));
        assert(script@ =~= old(script)@ + triple_pwm_run_script(false));
    }

    /// Give a channel of the triple PWM its duty cycle.
    pub fn set_triple_pwm_duty_cycle(
        &mut self,
        channel: Timer2PwmChannel,
        start: u16,
        end: u16,
        script: &mut Script,
    )
        ensures
            final(script)@ == old(script)@ + duty_cycle_script(channel, start, end),
    {
        let n: u8 = channel.number();
        script.overwrite(Field::StartCycle(n), start as u32);
        script.overwrite(Field::EndCycle(n), end as u32);
        assert(script@ =~= old(script)@ + duty_cycle_script(channel, start, end));
    }
}

/// With the system clock and a target of one kilohertz the divider is 15999;
/// with the low power clock it is 31.
pub proof fn lemma_divider_at_one_kilohertz()
    ensures
        pwm_divider(ClockSel::SystemClock, 1_000) == 15_999,
        pwm_divider(ClockSel::LowPowerClock, 1_000) == 31,
{
}

/// The divider counts whole periods: with it, the period of the PWM lasts
/// as many clock cycles as fit in one period of the target frequency.
pub proof fn lemma_divider_counts_cycles(clk_sel: ClockSel, freq_hz: u32)
    requires
        0 < freq_hz <= clock_freq(clk_sel),
        clock_freq(clk_sel) / freq_hz <= 0x1_0000,
    ensures
        (pwm_divider(clk_sel, freq_hz) + 1) * freq_hz <= clock_freq(clk_sel),
        clock_freq(clk_sel) < (pwm_divider(clk_sel, freq_hz) + 2) * freq_hz,
{
    let q = clock_freq(clk_sel) as int / freq_hz as int;
    assert(q * freq_hz <= clock_freq(clk_sel) < (q + 1) * freq_hz) by (nonlinear_arith)
        requires
            q == clock_freq(clk_sel) as int / freq_hz as int,
            freq_hz > 0,
    ;
    assert(q >= 1) by (nonlinear_arith)
        requires
            q == clock_freq(clk_sel) as int / freq_hz as int,
            0 < freq_hz <= clock_freq(clk_sel),
    ;
}

} // verus!
