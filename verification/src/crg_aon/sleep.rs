//! Hibernation: what to keep, what wakes the system, and the sequence that
//! puts it to sleep.
//!
//! The sequence crosses five peripherals and must run in one order. It is a
//! machine of phases. Each transition records the accesses of one phase; two
//! of them first need a value read from the device. Waiting for the hardware
//! is an instruction of the script, so that nothing here blocks.

use crate::crg_aon::CrgAon;
use crate::crg_top::{
    disable_dbg_script, ram_pwr_script, record_disable_dbg, record_ram_pwr, record_remap,
    remap_script, CrgTop,
};
use crate::device::{lemma_last_store, lemma_reading_push, reading};
use crate::gpio::p0::PortPin;
use crate::gpio::Input;
use crate::nvic::{clear_pending_script, record_clear_pending, Nvic};
use crate::pac::SCB;
use crate::regs::{and, bit, modify, CpuOp, Field, Instr, Step, Update};
use crate::script::{word, Script};
use crate::sys_wdog::{freeze_script, record_freeze, SysWdog};
use vstd::prelude::*;

verus! {

/// Where the system boots from after it wakes.
#[derive(Clone, Copy, Debug, PartialEq, Eq, Structural)]
pub enum RemapAddr {
    ToRom,
    ToOtp,
    ToRam1,
    ToRam3,
}

/// The code of a remap target in its register field.
pub open spec fn remap_code(remap_addr: RemapAddr) -> u8 {
    match remap_addr {
        RemapAddr::ToRom => 0,
        RemapAddr::ToOtp => 1,
        RemapAddr::ToRam1 => 2,
        RemapAddr::ToRam3 => 3,
    }
}

impl RemapAddr {
    /// The code of the target in its register field.
    pub fn code(self) -> (code: u8)
        ensures
            code == remap_code(self),
    {
        match self {
            RemapAddr::ToRom => 0,
            RemapAddr::ToOtp => 1,
            RemapAddr::ToRam1 => 2,
            RemapAddr::ToRam3 => 3,
        }
    }
}

impl Default for RemapAddr {
    fn default() -> (remap_addr: Self)
        ensures
            remap_addr == RemapAddr::ToRom,
    {
        Self::ToRom
    }
}

/// What a hibernation is to keep and what is to wake the system.
#[derive(Clone, Copy, Debug, PartialEq, Eq, Structural)]
pub struct SleepSettings {
    /// The wakeup pins: bit 0 for pin 1 up to bit 4 for pin 5.
    pub pin_mask: u8,
    /// Whether the first RAM bank stays powered.
    pub ram1_on: bool,
    /// Whether the second RAM bank stays powered.
    pub ram2_on: bool,
    /// Whether the third RAM bank stays powered.
    pub ram3_on: bool,
    /// Where the system boots from after it wakes.
    pub remap_addr: RemapAddr,
    /// Whether the pads keep their state during sleep.
    pub pad_latch_en: bool,
}

/// Whether a mask names only wakeup pins: no bit above bit 4.
pub open spec fn mask_in_range(pin_mask: u8) -> bool {
    pin_mask & 0b1110_0000 == 0
}

/// Whether a mask selects at least one and at most five wakeup pins.
pub open spec fn valid_pin_mask(pin_mask: u8) -> bool {
    mask_in_range(pin_mask) && pin_mask != 0
}

/// Whether a mask selects at least one and at most five wakeup pins.
pub fn pin_mask_is_valid(pin_mask: u8) -> (valid: bool)
    ensures
        valid == valid_pin_mask(pin_mask),
{
    pin_mask & 0b1110_0000 == 0 && pin_mask != 0
}

/// Whether the bank that the system boots from after it wakes is one that
/// stays powered. Nothing enforces it: a configuration that remaps to a bank
/// that is switched off is accepted, and wakes into a bank without content.
pub open spec fn remap_is_retained(settings: SleepSettings) -> bool {
    match settings.remap_addr {
        RemapAddr::ToRam1 => settings.ram1_on,
        RemapAddr::ToRam3 => settings.ram3_on,
        _ => true,
    }
}

impl SleepSettings {
    /// Whether the bank that the system boots from after it wakes stays
    /// powered.
    pub fn remap_retained(&self) -> (retained: bool)
        ensures
            retained == remap_is_retained(*self),
    {
        match self.remap_addr {
            RemapAddr::ToRam1 => self.ram1_on,
            RemapAddr::ToRam3 => self.ram3_on,
            _ => true,
        }
    }
}

/// The configuration of a hibernation, built up by chained calls. Its view is
/// the settings gathered so far.
#[derive(Clone, Copy)]
pub struct SleepConfig {
    settings: SleepSettings,
}

impl View for SleepConfig {
    type V = SleepSettings;

    closed spec fn view(&self) -> SleepSettings {
        self.settings
    }
}

impl Default for SleepConfig {
    fn default() -> (config: Self)
        ensures
            config@ == (SleepSettings {
                pin_mask: 0,
                ram1_on: false,
                ram2_on: false,
                ram3_on: false,
                remap_addr: RemapAddr::ToRom,
                pad_latch_en: false,
            }),
    {
        Self {
            settings: SleepSettings {
                pin_mask: 0,
                ram1_on: false,
                ram2_on: false,
                ram3_on: false,
                remap_addr: RemapAddr::ToRom,
                pad_latch_en: false,
            },
        }
    }
}

/// A pin that can wake the system from hibernation.
pub trait WakeupPin {
    /// The bit of the pin in the wakeup mask.
    spec fn mask_bits() -> u8;

    /// The bit of the pin in the wakeup mask: one bit, within the range of
    /// the mask.
    fn mask() -> (m: u8)
        ensures
            m == Self::mask_bits(),
            valid_pin_mask(m),
    ;
}

impl<MODE> WakeupPin for PortPin<1, Input<MODE>> {
    open spec fn mask_bits() -> u8 {
        0b0_0001
    }

    fn mask() -> (m: u8) {
        assert(valid_pin_mask(0b0_0001)) by (bit_vector);
        0b0_0001
    }
}

impl<MODE> WakeupPin for PortPin<2, Input<MODE>> {
    open spec fn mask_bits() -> u8 {
        0b0_0010
    }

    fn mask() -> (m: u8) {
        assert(valid_pin_mask(0b0_0010)) by (bit_vector);
        0b0_0010
    }
}

impl<MODE> WakeupPin for PortPin<3, Input<MODE>> {
    open spec fn mask_bits() -> u8 {
        0b0_0100
    }

    fn mask() -> (m: u8) {
        assert(valid_pin_mask(0b0_0100)) by (bit_vector);
        0b0_0100
    }
}

impl<MODE> WakeupPin for PortPin<4, Input<MODE>> {
    open spec fn mask_bits() -> u8 {
        0b0_1000
    }

    fn mask() -> (m: u8) {
        assert(valid_pin_mask(0b0_1000)) by (bit_vector);
        0b0_1000
    }
}

impl<MODE> WakeupPin for PortPin<5, Input<MODE>> {
    open spec fn mask_bits() -> u8 {
        0b1_0000
    }

    fn mask() -> (m: u8) {
        assert(valid_pin_mask(0b1_0000)) by (bit_vector);
        0b1_0000
    }
}

impl SleepConfig {
    /// A configuration with these settings.
    pub fn new(
        pin_mask: u8,
        ram1_on: bool,
        ram2_on: bool,
        ram3_on: bool,
        remap_addr: RemapAddr,
        pad_latch_en: bool,
    ) -> (config: Self)
        ensures
            config@ == (SleepSettings {
                pin_mask,
                ram1_on,
                ram2_on,
                ram3_on,
                remap_addr,
                pad_latch_en,
            }),
    {
        Self {
            settings: SleepSettings {
                pin_mask,
                ram1_on,
                ram2_on,
                ram3_on,
                remap_addr,
                pad_latch_en,
            },
        }
    }

    /// The settings gathered so far.
    pub fn settings(&self) -> (settings: SleepSettings)
        ensures
            settings == self@,
    {
        self.settings
    }

    /// Let `_pin` wake the system, besides the pins selected before. A
    /// configuration whose mask was in range is valid from here on.
    pub fn enable_pin<WP: WakeupPin>(self, _pin: WP) -> (config: Self)
        ensures
            config@ == (SleepSettings { pin_mask: self@.pin_mask | WP::mask_bits(), ..self@ }),
            mask_in_range(self@.pin_mask) ==> valid_pin_mask(config@.pin_mask),
    {
        let mut config = self;
        let m: u8 = WP::mask();
        let before: u8 = config.settings.pin_mask;
        assert(mask_in_range(before) && valid_pin_mask(m) ==> valid_pin_mask(before | m))
            by (bit_vector);
        config.settings.pin_mask = before | m;
        config
    }

    /// Say which RAM banks stay powered.
    pub fn set_ram_power(self, ram1_on: bool, ram2_on: bool, ram3_on: bool) -> (config: Self)
        ensures
            config@ == (SleepSettings { ram1_on, ram2_on, ram3_on, ..self@ }),
    {
        let mut config = self;
        config.settings.ram1_on = ram1_on;
        config.settings.ram2_on = ram2_on;
        config.settings.ram3_on = ram3_on;
        config
    }

    /// Say where the system boots from after it wakes.
    pub fn set_remap_addr(self, remap_addr: RemapAddr) -> (config: Self)
        ensures
            config@ == (SleepSettings { remap_addr, ..self@ }),
    {
        let mut config = self;
        config.settings.remap_addr = remap_addr;
        config
    }

    /// Say whether the pads keep their state during sleep.
    pub fn set_pad_latch_en(self, pad_latch_en: bool) -> (config: Self)
        ensures
            config@ == (SleepSettings { pad_latch_en, ..self@ }),
    {
        let mut config = self;
        config.settings.pad_latch_en = pad_latch_en;
        config
    }
}

/// The phases of the way into hibernation, in their order.
#[derive(Clone, Copy, Debug, PartialEq, Eq, Structural)]
pub enum SleepPhase {
    /// Nothing has been done yet.
    Running,
    /// The watchdog is frozen, interrupts are masked, nothing is pending.
    Preparing,
    /// The debugger has gone down and is switched off.
    DebugQuiesced,
    /// The wakeup pins are selected; the wakeup line has not been looked at.
    WakeupMasked,
    /// The wakeup polarity fits the pins and the wakeup line has settled.
    WakeupArmed,
    /// Sleep mode, RAM retention, remap target, pad latch and retention
    /// voltage are set.
    HibernationConfigured,
    /// The battery rails are connected as the regulator's mode asks.
    PowerRailConfigured,
    /// The power-on resets are masked as sleep needs them.
    PowerOnResetConfigured,
    /// The low frequency oscillator is set up for retention.
    QuiescedForRetention,
    /// The core has halted. A wakeup event resumes it after this point.
    Asleep,
}

/// The position of a phase in the sequence.
pub open spec fn phase_rank(phase: SleepPhase) -> nat {
    match phase {
        SleepPhase::Running => 0,
        SleepPhase::Preparing => 1,
        SleepPhase::DebugQuiesced => 2,
        SleepPhase::WakeupMasked => 3,
        SleepPhase::WakeupArmed => 4,
        SleepPhase::HibernationConfigured => 5,
        SleepPhase::PowerRailConfigured => 6,
        SleepPhase::PowerOnResetConfigured => 7,
        SleepPhase::QuiescedForRetention => 8,
        SleepPhase::Asleep => 9,
    }
}

/// The phase that follows a phase. Nothing follows the last.
pub open spec fn phase_after(phase: SleepPhase) -> SleepPhase {
    match phase {
        SleepPhase::Running => SleepPhase::Preparing,
        SleepPhase::Preparing => SleepPhase::DebugQuiesced,
        SleepPhase::DebugQuiesced => SleepPhase::WakeupMasked,
        SleepPhase::WakeupMasked => SleepPhase::WakeupArmed,
        SleepPhase::WakeupArmed => SleepPhase::HibernationConfigured,
        SleepPhase::HibernationConfigured => SleepPhase::PowerRailConfigured,
        SleepPhase::PowerRailConfigured => SleepPhase::PowerOnResetConfigured,
        SleepPhase::PowerOnResetConfigured => SleepPhase::QuiescedForRetention,
        SleepPhase::QuiescedForRetention => SleepPhase::Asleep,
        SleepPhase::Asleep => SleepPhase::Asleep,
    }
}

/// The field whose value the transition out of a phase decides on, where it
/// decides on one.
pub open spec fn awaited(phase: SleepPhase) -> Option<Field> {
    match phase {
        SleepPhase::WakeupMasked => Some(Field::ClklessWakeupStat),
        SleepPhase::HibernationConfigured => Some(Field::BoostSelected),
        _ => None,
    }
}

/// The retention voltage trim: one value where no RAM bank is retained,
/// another where any is.
pub open spec fn ldo_ret_trim(settings: SleepSettings) -> u32 {
    if !settings.ram1_on && !settings.ram2_on && !settings.ram3_on {
        0x0e
    } else {
        0x0d
    }
}

/// How the battery rails are connected: forced together, and not charged,
/// in boost mode; connected automatically in buck mode.
pub open spec fn power_rail_script(boost: bool) -> Seq<Instr> {
    if boost {
        seq![
            modify(Field::VbatHlConnectResCtrl, Update::Store(2)),
            and(Field::ChargeVbatDisable, 1),
        ]
    } else {
        seq![modify(Field::VbatHlConnectResCtrl, Update::Store(3))]
    }
}

/// What hibernation itself needs: sleep mode selected, the core's deep
/// sleep, each RAM bank switched off unless it is to be kept, the remap
/// target, the pad latch, light sleep disabled for all RAM, the retention
/// trim and the test comparator off.
pub open spec fn hibernation_script(settings: SleepSettings) -> Seq<Instr> {
    seq![
        modify(Field::HibernationEnable, Update::Store(1)),
        modify(Field::Sleepdeep, Update::Store(1)),
    ] + ram_pwr_script(
        bit(!settings.ram1_on) as u8,
        bit(!settings.ram2_on) as u8,
        bit(!settings.ram3_on) as u8,
    ) + remap_script(remap_code(settings.remap_addr)) + seq![
        modify(Field::PadLatchEn, Update::Store(bit(settings.pad_latch_en))),
        modify(Field::RamxLpmx, Update::Store(7)),
        modify(Field::LdoRetTrim, Update::Store(ldo_ret_trim(settings))),
        and(Field::ForceRunningCompDis, 1),
    ]
}

/// What the transition out of `phase` records. `reply` is the value read
/// from the field that the phase awaits; the other phases ignore it.
pub open spec fn transition_script(phase: SleepPhase, settings: SleepSettings, reply: u32) -> Seq<
    Instr,
> {
    match phase {
        SleepPhase::Running => freeze_script() + seq![Instr::Cpu(CpuOp::DisableInterrupts)]
            + clear_pending_script(),
        SleepPhase::Preparing => seq![Instr::WaitClear(Field::DbgIsUp)] + disable_dbg_script(),
        SleepPhase::DebugQuiesced => seq![
            modify(Field::HibernWkupMask, Update::Store(settings.pin_mask as u32)),
        ],
        SleepPhase::WakeupMasked => if reply == 0 {
            seq![
                modify(Field::HibernWkupPolarity, Update::Toggle(1)),
                Instr::WaitSet(Field::ClklessWakeupStat),
            ]
        } else {
            seq![Instr::WaitSet(Field::ClklessWakeupStat)]
        },
        SleepPhase::WakeupArmed => hibernation_script(settings),
        SleepPhase::HibernationConfigured => power_rail_script(reply != 0),
        SleepPhase::PowerRailConfigured => seq![
            modify(Field::PorVbatHighRstMask, Update::Store(1)),
            and(Field::PorVbatLowRstMask, 0),
        ],
        SleepPhase::PowerOnResetConfigured => seq![modify(Field::AnaSpare, Update::Store(2))],
        SleepPhase::QuiescedForRetention => seq![
            Instr::Cpu(CpuOp::Nop),
            Instr::Cpu(CpuOp::Nop),
            Instr::Cpu(CpuOp::Nop),
            Instr::Cpu(CpuOp::WaitForInterrupt),
        ],
        SleepPhase::Asleep => Seq::<Instr>::empty(),
    }
}

/// The phase in which a call that starts in `phase` comes to rest: the next
/// one that awaits a value, or the last.
pub open spec fn rest_after(phase: SleepPhase) -> SleepPhase {
    match phase {
        SleepPhase::Running | SleepPhase::Preparing | SleepPhase::DebugQuiesced => {
            SleepPhase::WakeupMasked
        },
        SleepPhase::WakeupMasked | SleepPhase::WakeupArmed => SleepPhase::HibernationConfigured,
        _ => SleepPhase::Asleep,
    }
}

/// What a call that starts in `phase` records: the transitions from there to
/// the phase of rest, in their order. Only the first of them reads `reply`.
pub open spec fn resume_script(phase: SleepPhase, settings: SleepSettings, reply: u32) -> Seq<
    Instr,
> {
    match phase {
        SleepPhase::Running => transition_script(SleepPhase::Running, settings, reply)
            + transition_script(SleepPhase::Preparing, settings, 0) + transition_script(
            SleepPhase::DebugQuiesced,
            settings,
            0,
        ),
        SleepPhase::Preparing => transition_script(SleepPhase::Preparing, settings, reply)
            + transition_script(SleepPhase::DebugQuiesced, settings, 0),
        SleepPhase::DebugQuiesced => transition_script(SleepPhase::DebugQuiesced, settings, reply),
        SleepPhase::WakeupMasked => transition_script(SleepPhase::WakeupMasked, settings, reply)
            + transition_script(SleepPhase::WakeupArmed, settings, 0),
        SleepPhase::WakeupArmed => transition_script(SleepPhase::WakeupArmed, settings, reply),
        SleepPhase::HibernationConfigured => transition_script(
            SleepPhase::HibernationConfigured,
            settings,
            reply,
        ) + transition_script(SleepPhase::PowerRailConfigured, settings, 0) + transition_script(
            SleepPhase::PowerOnResetConfigured,
            settings,
            0,
        ) + transition_script(SleepPhase::QuiescedForRetention, settings, 0),
        SleepPhase::PowerRailConfigured => transition_script(
            SleepPhase::PowerRailConfigured,
            settings,
            reply,
        ) + transition_script(SleepPhase::PowerOnResetConfigured, settings, 0)
            + transition_script(SleepPhase::QuiescedForRetention, settings, 0),
        SleepPhase::PowerOnResetConfigured => transition_script(
            SleepPhase::PowerOnResetConfigured,
            settings,
            reply,
        ) + transition_script(SleepPhase::QuiescedForRetention, settings, 0),
        SleepPhase::QuiescedForRetention => transition_script(
            SleepPhase::QuiescedForRetention,
            settings,
            reply,
        ),
        SleepPhase::Asleep => Seq::<Instr>::empty(),
    }
}

/// What the caller does once a call has come to rest in `phase`.
pub open spec fn step_at(phase: SleepPhase) -> Step<()> {
    match awaited(phase) {
        Some(field) => Step::Ask(field),
        None => Step::Done(()),
    }
}

impl SleepPhase {
    /// The field whose value the transition out of this phase decides on.
    pub fn awaits(self) -> (field: Option<Field>)
        ensures
            field == awaited(self),
    {
        match self {
            SleepPhase::WakeupMasked => Some(Field::ClklessWakeupStat),
            SleepPhase::HibernationConfigured => Some(Field::BoostSelected),
            _ => None,
        }
    }

    /// One transition: record what leads out of this phase and return the
    /// phase that follows. `reply` is the value read from the field that
    /// this phase awaits.
    pub fn advance(self, settings: &SleepSettings, reply: u32, script: &mut Script) -> (next:
        SleepPhase)
        ensures
            next == phase_after(self),
            final(script)@ == old(script)@ + transition_script(self, *settings, reply),
    {
        let ghost before = old(script)@;
        let ghost t = transition_script(self, *settings, reply);
        match self {
            SleepPhase::Running => {
                record_freeze(script);
                script.cpu(CpuOp::DisableInterrupts);
                record_clear_pending(script);
                assert(script@ =~= before + t);
                SleepPhase::Preparing
            },
            SleepPhase::Preparing => {
                script.wait_clear(Field::DbgIsUp);
                record_disable_dbg(script);
                assert(script@ =~= before + t);
                SleepPhase::DebugQuiesced
            },
            SleepPhase::DebugQuiesced => {
                script.modify(Field::HibernWkupMask, Update::Store(settings.pin_mask as u32));
                assert(script@ =~= before + t);
                SleepPhase::WakeupMasked
            },
            SleepPhase::WakeupMasked => {
                if reply == 0 {
                    script.modify(Field::HibernWkupPolarity, Update::Toggle(1));
                }
                script.wait_set(Field::ClklessWakeupStat);
                assert(script@ =~= before + t);
                SleepPhase::WakeupArmed
            },
            SleepPhase::WakeupArmed => {
                script.modify(Field::HibernationEnable, Update::Store(1));
                script.modify(Field::Sleepdeep, Update::Store(1));
                record_ram_pwr(
                    word(!settings.ram1_on) as u8,
                    word(!settings.ram2_on) as u8,
                    word(!settings.ram3_on) as u8,
                    script,
                );
                record_remap(settings.remap_addr.code(), script);
                script.modify(Field::PadLatchEn, Update::Store(word(settings.pad_latch_en)));
                script.modify(Field::RamxLpmx, Update::Store(7));
                let trim: u32 = if !settings.ram1_on && !settings.ram2_on && !settings.ram3_on {
                    0x0e
                } else {
                    0x0d
                };
                script.modify(Field::LdoRetTrim, Update::Store(trim));
                script.and(Field::ForceRunningCompDis, 1);
                assert(script@ =~= before + t);
                SleepPhase::HibernationConfigured
            },
            SleepPhase::HibernationConfigured => {
                if reply != 0 {
                    script.modify(Field::VbatHlConnectResCtrl, Update::Store(2));
                    script.and(Field::ChargeVbatDisable, 1);
                } else {
                    script.modify(Field::VbatHlConnectResCtrl, Update::Store(3));
                }
                assert(script@ =~= before + t);
                SleepPhase::PowerRailConfigured
            },
            SleepPhase::PowerRailConfigured => {
                script.modify(Field::PorVbatHighRstMask, Update::Store(1));
                script.and(Field::PorVbatLowRstMask, 0);
                assert(script@ =~= before + t);
                SleepPhase::PowerOnResetConfigured
            },
            SleepPhase::PowerOnResetConfigured => {
                script.modify(Field::AnaSpare, Update::Store(2));
                assert(script@ =~= before + t);
                SleepPhase::QuiescedForRetention
            },
            SleepPhase::QuiescedForRetention => {
                script.cpu(CpuOp::Nop);
                script.cpu(CpuOp::Nop);
                script.cpu(CpuOp::Nop);
                script.cpu(CpuOp::WaitForInterrupt);
                assert(script@ =~= before + t);
                SleepPhase::Asleep
            },
            SleepPhase::Asleep => {
                assert(script@ =~= before + t);
                SleepPhase::Asleep
            },
        }
    }

    /// Go on from this phase until a value is needed or the core halts:
    /// record the transitions up to the phase of rest and return that phase.
    pub fn resume(self, settings: &SleepSettings, reply: u32, script: &mut Script) -> (rest:
        SleepPhase)
        ensures
            rest == rest_after(self),
            final(script)@ == old(script)@ + resume_script(self, *settings, reply),
    {
        let ghost before = old(script)@;
        let mut phase: SleepPhase = self.advance(settings, reply, script);
        if phase == SleepPhase::Preparing {
            phase = phase.advance(settings, 0, script);
        }
        if phase == SleepPhase::DebugQuiesced {
            phase = phase.advance(settings, 0, script);
        }
        if phase == SleepPhase::WakeupArmed {
            phase = phase.advance(settings, 0, script);
        }
        if phase == SleepPhase::PowerRailConfigured {
            phase = phase.advance(settings, 0, script);
        }
        if phase == SleepPhase::PowerOnResetConfigured {
            phase = phase.advance(settings, 0, script);
        }
        if phase == SleepPhase::QuiescedForRetention {
            phase = phase.advance(settings, 0, script);
        }
        assert(script@ =~= before + resume_script(self, *settings, reply));
        phase
    }
}

impl CrgAon {
    /// One call of the way into hibernation.
    ///
    /// `phase` is where the sequence stands: [`SleepPhase::Running`] at the
    /// first call, and afterwards what the call before left there. The call
    /// records the accesses up to the next phase that needs a value from the
    /// device, or to the end. With [`Step::Ask`] the caller performs the
    /// script, reads the field and calls again with the value as `reply`;
    /// with [`Step::Done`] the last instruction of the script has halted the
    /// core. The drivers of the other peripherals are borrowed for the call,
    /// so that nothing else records accesses to them meanwhile.
    pub fn init_sleep(
        &mut self,
        nvic: &mut Nvic,
        crg_top: &mut CrgTop,
        sys_wdog: &mut SysWdog,
        scb: &mut SCB,
        sleep_config: &SleepConfig,
        phase: &mut SleepPhase,
        reply: u32,
        script: &mut Script,
    ) -> (step: Step<()>)
        requires
            valid_pin_mask(sleep_config@.pin_mask),
        ensures
            *final(phase) == rest_after(*old(phase)),
            final(script)@ == old(script)@ + resume_script(*old(phase), sleep_config@, reply),
            step == step_at(*final(phase)),
            final(sys_wdog).period() == old(sys_wdog).period(),
    {
        let settings: SleepSettings = sleep_config.settings();
        let rest: SleepPhase = (*phase).resume(&settings, reply, script);
        *phase = rest;
        match rest.awaits() {
            Some(field) => Step::Ask(field),
            None => Step::Done(()),
        }
    }
}

/// The phases follow one another in one order: each transition leads to the
/// next position, and the last phase is left no more.
pub proof fn lemma_phases_in_order(phase: SleepPhase)
    ensures
        phase != SleepPhase::Asleep ==> phase_rank(phase_after(phase)) == phase_rank(phase) + 1,
        phase_after(SleepPhase::Asleep) == SleepPhase::Asleep,
        phase_rank(rest_after(phase)) >= phase_rank(phase),
        phase != SleepPhase::Asleep ==> phase_rank(rest_after(phase)) > phase_rank(phase),
{
}

/// Three calls complete the sequence: from the start to the wakeup line,
/// from there to the regulator's mode, from there to the halted core. What
/// they record, taken together, is every transition in the order of the
/// phases.
pub proof fn lemma_three_calls(settings: SleepSettings, wakeup_stat: u32, boost: u32)
    ensures
        rest_after(SleepPhase::Running) == SleepPhase::WakeupMasked,
        rest_after(SleepPhase::WakeupMasked) == SleepPhase::HibernationConfigured,
        rest_after(SleepPhase::HibernationConfigured) == SleepPhase::Asleep,
        step_at(SleepPhase::WakeupMasked) == Step::Ask::<()>(Field::ClklessWakeupStat),
        step_at(SleepPhase::HibernationConfigured) == Step::Ask::<()>(Field::BoostSelected),
        step_at(SleepPhase::Asleep) == Step::Done(()),
        resume_script(SleepPhase::Running, settings, 0) + resume_script(
            SleepPhase::WakeupMasked,
            settings,
            wakeup_stat,
        ) + resume_script(SleepPhase::HibernationConfigured, settings, boost)
            == transition_script(SleepPhase::Running, settings, 0) + transition_script(
            SleepPhase::Preparing,
            settings,
            0,
        ) + transition_script(SleepPhase::DebugQuiesced, settings, 0) + transition_script(
            SleepPhase::WakeupMasked,
            settings,
            wakeup_stat,
        ) + transition_script(SleepPhase::WakeupArmed, settings, 0) + transition_script(
            SleepPhase::HibernationConfigured,
            settings,
            boost,
        ) + transition_script(SleepPhase::PowerRailConfigured, settings, 0) + transition_script(
            SleepPhase::PowerOnResetConfigured,
            settings,
            0,
        ) + transition_script(SleepPhase::QuiescedForRetention, settings, 0),
{
    let a = resume_script(SleepPhase::Running, settings, 0) + resume_script(
        SleepPhase::WakeupMasked,
        settings,
        wakeup_stat,
    ) + resume_script(SleepPhase::HibernationConfigured, settings, boost);
    let b = transition_script(SleepPhase::Running, settings, 0) + transition_script(
        SleepPhase::Preparing,
        settings,
        0,
    ) + transition_script(SleepPhase::DebugQuiesced, settings, 0) + transition_script(
        SleepPhase::WakeupMasked,
        settings,
        wakeup_stat,
    ) + transition_script(SleepPhase::WakeupArmed, settings, 0) + transition_script(
        SleepPhase::HibernationConfigured,
        settings,
        boost,
    ) + transition_script(SleepPhase::PowerRailConfigured, settings, 0) + transition_script(
        SleepPhase::PowerOnResetConfigured,
        settings,
        0,
    ) + transition_script(SleepPhase::QuiescedForRetention, settings, 0);
    assert(a =~= b);
}

/// The power rail step: in boost mode the rails are forced together
/// (encoding 2) and charging is disabled; in buck mode they are connected
/// automatically (encoding 3) and the charge setting stays as it was.
pub proof fn lemma_power_rail(history: Seq<Instr>, settings: SleepSettings, boost: u32)
    ensures
        reading(
            history + transition_script(SleepPhase::HibernationConfigured, settings, boost),
            Field::VbatHlConnectResCtrl,
        ) == if boost != 0 {
            2u32
        } else {
            3u32
        },
        reading(
            history + transition_script(SleepPhase::HibernationConfigured, settings, boost),
            Field::ChargeVbatDisable,
        ) == if boost != 0 {
            1u32
        } else {
            reading(history, Field::ChargeVbatDisable)
        },
{
    let t = transition_script(SleepPhase::HibernationConfigured, settings, boost);
    if boost != 0 {
        assert(history + t =~= history.push(t[0]).push(t[1]));
        lemma_reading_push(history, t[0], Field::VbatHlConnectResCtrl);
        lemma_reading_push(history.push(t[0]), t[1], Field::VbatHlConnectResCtrl);
        lemma_reading_push(history, t[0], Field::ChargeVbatDisable);
        lemma_reading_push(history.push(t[0]), t[1], Field::ChargeVbatDisable);
    } else {
        assert(history + t =~= history.push(t[0]));
        lemma_reading_push(history, t[0], Field::VbatHlConnectResCtrl);
        lemma_reading_push(history, t[0], Field::ChargeVbatDisable);
    }
}

/// What hibernation finds configured: sleep mode selected and the core in
/// deep sleep; each RAM bank switched off exactly when it is not to be kept;
/// the remap target, the pad latch and the retention trim as the settings
/// say; light sleep disabled and the test comparator off.
pub proof fn lemma_hibernation_configured(history: Seq<Instr>, settings: SleepSettings)
    ensures
        ({
            let after = history + transition_script(SleepPhase::WakeupArmed, settings, 0);
            &&& reading(after, Field::HibernationEnable) == 1
            &&& reading(after, Field::Sleepdeep) == 1
            &&& reading(after, Field::Ram1PwrCtrl) == bit(!settings.ram1_on)
            &&& reading(after, Field::Ram2PwrCtrl) == bit(!settings.ram2_on)
            &&& reading(after, Field::Ram3PwrCtrl) == bit(!settings.ram3_on)
            &&& reading(after, Field::RemapAdr0) == remap_code(settings.remap_addr)
            &&& reading(after, Field::PadLatchEn) == bit(settings.pad_latch_en)
            &&& reading(after, Field::RamxLpmx) == 7
            &&& reading(after, Field::LdoRetTrim) == ldo_ret_trim(settings)
            &&& reading(after, Field::ForceRunningCompDis) == 1
        }),
{
    let t = transition_script(SleepPhase::WakeupArmed, settings, 0);
    assert(t.len() == 10);
    lemma_last_store(history, t, 0, Field::HibernationEnable, 1);
    lemma_last_store(history, t, 1, Field::Sleepdeep, 1);
    lemma_last_store(history, t, 2, Field::Ram1PwrCtrl, bit(!settings.ram1_on));
    lemma_last_store(history, t, 3, Field::Ram2PwrCtrl, bit(!settings.ram2_on));
    lemma_last_store(history, t, 4, Field::Ram3PwrCtrl, bit(!settings.ram3_on));
    lemma_last_store(history, t, 5, Field::RemapAdr0, remap_code(settings.remap_addr) as u32);
    lemma_last_store(history, t, 6, Field::PadLatchEn, bit(settings.pad_latch_en));
    lemma_last_store(history, t, 7, Field::RamxLpmx, 7);
    lemma_last_store(history, t, 8, Field::LdoRetTrim, ldo_ret_trim(settings));
    lemma_last_store(history, t, 9, Field::ForceRunningCompDis, 1);
}

} // verus!
