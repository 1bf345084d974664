//! The analog to digital converter.
//!
//! Configuring it is a script. A conversion ends when the hardware says so,
//! and its result is read by the caller. The offset calibration takes three
//! conversions and decides on each result, so it is a machine.

use crate::gpadc::config::{
    attenuation_code, averaging_code, default_config, sample_time_code, AdcConfig, Averaging,
    Chopper, Continuous, InputMode, Shifter,
};
use crate::device::{lemma_last_store, reading};
use crate::pac::GPADC;
use crate::regs::{and, bit, modify, overwrite, CpuOp, Field, Instr, Reg, Step, Update};
use crate::script::{word, Script};
use vstd::prelude::*;

pub mod config;

verus! {

/// Turns the converter's token into its driver.
pub trait GpAdcExt {
    /// The driver, in place of the token.
    fn constrain(self) -> GpAdc;
}

impl GpAdcExt for GPADC {
    fn constrain(self) -> (driver: GpAdc)
        ensures
            driver.token() == self,
    {
        GpAdc { gpadc: self }
    }
}

/// Driver of the analog to digital converter.
pub struct GpAdc {
    gpadc: GPADC,
}

/// The level of the converter's regulator: 925 mV.
pub const LDO_LEVEL: u32 = 0x4;

/// The cycles that the temperature sensor needs to settle: 25 us at 16 MHz.
pub const DIE_TEMP_SETTLE_CYCLES: u32 = 400;

/// The value of an offset register that corrects nothing, and the middle of
/// the range of a sample of ten bits.
pub const MID_SCALE: u16 = 0x200;

/// The residual from which on a calibration has failed.
pub const CALIBRATION_THRESHOLD: u16 = 8;

/// The registers of the converter take their reset values.
pub open spec fn reset_script() -> Seq<Instr> {
    seq![
        Instr::Reset(Reg::GpAdcCtrl),
        Instr::Reset(Reg::GpAdcCtrl2),
        Instr::Reset(Reg::GpAdcCtrl3),
        Instr::Reset(Reg::GpAdcSel),
        Instr::Reset(Reg::GpAdcTrim),
    ]
}

/// The trim register takes the trim word, with the regulator at its level.
pub open spec fn trim_script(adc_trim_val: u16) -> Seq<Instr> {
    seq![
        modify(Field::GpAdcTrimWord, Update::Store(adc_trim_val as u32)),
        and(Field::GpAdcLdoLevel, LDO_LEVEL),
    ]
}

/// What configuring records: mode, continuity, temperature sensor and
/// chopper in one access; the two channels in one; then, if the temperature
/// sensor is on, the time that it needs to settle; then shifter, attenuation,
/// averaging and sample time in one access.
pub open spec fn configure_script(config: AdcConfig) -> Seq<Instr> {
    seq![
        modify(Field::GpAdcSe, Update::Store(bit(config.mode == InputMode::SingleEnded))),
        and(Field::GpAdcCont, bit(config.continuous == Continuous::Continuous)),
        and(Field::DieTempEn, bit(config.enable_die_temp)),
        and(Field::GpAdcChop, bit(config.chopper == Chopper::On)),
        modify(Field::GpAdcSelP, Update::Store(config.channel_sel_pos as u32)),
        and(Field::GpAdcSelN, config.channel_sel_neg as u32),
    ] + (if config.enable_die_temp {
        seq![Instr::Cpu(CpuOp::Delay(DIE_TEMP_SETTLE_CYCLES))]
    } else {
        Seq::<Instr>::empty()
    }) + seq![
        modify(Field::GpAdcOffsShEn, Update::Store(bit(config.shifter == Shifter::On))),
        and(Field::GpAdcAttn, attenuation_code(config.attenuation) as u32),
        and(Field::GpAdcConvNrs, averaging_code(config.averaging) as u32),
        and(Field::GpAdcSmplTime, sample_time_code(config.sample_time) as u32),
    ]
}

/// The access that switches the converter on or off.
pub open spec fn power_script(on: bool) -> Seq<Instr> {
    seq![modify(Field::GpAdcEn, Update::Store(bit(on)))]
}

/// The wait after the converter was switched on: four cycles for each unit
/// of the enable delay that its register holds.
pub open spec fn enable_delay_script(en_del: u8) -> Seq<Instr> {
    seq![Instr::Cpu(CpuOp::Delay((4 * en_del) as u32))]
}

/// What [`GpAdc::init`] records: reset, trim, configuration, and the
/// converter switched on.
pub open spec fn init_script(config: AdcConfig) -> Seq<Instr> {
    reset_script() + trim_script(config.adc_trim_val) + configure_script(config) + power_script(
        true,
    )
}

/// The access that switches the constant current sink of the regulator.
pub open spec fn sink_script(on: bool) -> Seq<Instr> {
    seq![modify(Field::GpAdcI20u, Update::Store(bit(on)))]
}

/// The access that switches the input shifter.
pub open spec fn shifter_script(on: bool) -> Seq<Instr> {
    seq![modify(Field::GpAdcOffsShEn, Update::Store(bit(on)))]
}

/// The access that starts a conversion.
pub open spec fn start_conversion_script() -> Seq<Instr> {
    seq![modify(Field::GpAdcStart, Update::Store(1))]
}

/// Wait until the conversion has ended, then acknowledge its interrupt.
pub open spec fn wait_for_conversion_script() -> Seq<Instr> {
    seq![Instr::WaitClear(Field::GpAdcStart), overwrite(Field::GpAdcClrInt, 1)]
}

/// One conversion, from its start to the acknowledged end.
pub open spec fn conversion_script() -> Seq<Instr> {
    start_conversion_script() + wait_for_conversion_script()
}

/// The sample that a word read from the result register holds.
pub open spec fn sample_of(word: u32) -> u16 {
    (word % 0x1_0000) as u16
}

/// The ten bits of a sample that the calibration looks at.
pub open spec fn ten_bits(sample: u16) -> int {
    sample as int / 64
}

/// The offset that a sample shows: how far its ten bits lie from the middle
/// of the scale.
pub open spec fn offset_of(sample: u16) -> int {
    ten_bits(sample) - MID_SCALE
}

/// The value of an offset register that corrects the offset that a sample
/// shows: the middle of the scale less twice the offset, as a word of
/// sixteen bits.
pub open spec fn correction_for(sample: u16) -> u16 {
    ((MID_SCALE - 2 * offset_of(sample)) % 0x1_0000) as u16
}

/// How far the ten bits of a sample lie from the middle of the scale,
/// whichever way.
pub open spec fn residual_of(sample: u16) -> int {
    if offset_of(sample) >= 0 {
        offset_of(sample)
    } else {
        -offset_of(sample)
    }
}

/// The configuration that the calibration runs with: the shortest sample
/// time and the longest averaging.
pub open spec fn calibration_config(adc_trim_val: u16) -> AdcConfig {
    AdcConfig { adc_trim_val, averaging: Averaging::SamplesX128, ..default_config() }
}

/// A calibration left a residual at or above the threshold.
#[derive(Clone, Copy, Debug, PartialEq, Eq, Structural)]
pub struct CalibrationFailed;

/// Where a calibration stands.
#[derive(Clone, Copy, Debug, PartialEq, Eq, Structural)]
pub enum CalibrationPhase {
    /// Nothing has been done yet.
    Start,
    /// The converter was switched on; its enable delay is awaited.
    Enabling,
    /// The conversion with positive sign runs; its result is awaited.
    PositiveSample,
    /// The conversion with negative sign runs; its result is awaited.
    NegativeSample,
    /// The corrections are in place and the verifying conversion runs.
    Verifying,
    /// The residual was below the threshold.
    Calibrated,
    /// The residual was at or above the threshold.
    Failed,
}

/// A calibration in progress: the trim word it was begun with, where it
/// stands, and the correction that the positive sample gave.
#[derive(Clone, Copy, Debug, PartialEq, Eq, Structural)]
pub struct Calibration {
    pub adc_trim_val: u16,
    pub phase: CalibrationPhase,
    pub positive: u16,
}

/// What one step of a calibration comes to.
pub struct CalibrationOutcome {
    /// The calibration after the step.
    pub state: Calibration,
    /// What the step records.
    pub script: Seq<Instr>,
    /// What the caller does after performing the script.
    pub step: Step<Result<(), CalibrationFailed>>,
}

/// What one step of a calibration comes to, with `reply` the value of the
/// field that the step before asked for.
pub open spec fn calibration_step(state: Calibration, reply: u32) -> CalibrationOutcome {
    match state.phase {
        CalibrationPhase::Start => CalibrationOutcome {
            state: Calibration { phase: CalibrationPhase::Enabling, ..state },
            script: init_script(calibration_config(state.adc_trim_val)),
            step: Step::Ask(Field::GpAdcEnDel),
        },
        CalibrationPhase::Enabling => CalibrationOutcome {
            state: Calibration { phase: CalibrationPhase::PositiveSample, ..state },
            script: enable_delay_script((reply % 0x100) as u8) + sink_script(true) + seq![
                modify(Field::GpAdcOffp, Update::Store(MID_SCALE as u32)),
                modify(Field::GpAdcOffn, Update::Store(MID_SCALE as u32)),
                modify(Field::GpAdcMute, Update::Store(1)),
                and(Field::GpAdcSign, 0),
            ] + conversion_script(),
            step: Step::Ask(Field::GpAdcVal),
        },
        CalibrationPhase::PositiveSample => CalibrationOutcome {
            state: Calibration {
                phase: CalibrationPhase::NegativeSample,
                positive: correction_for(sample_of(reply)),
                ..state
            },
            script: seq![modify(Field::GpAdcSign, Update::Store(1))] + conversion_script(),
            step: Step::Ask(Field::GpAdcVal),
        },
        CalibrationPhase::NegativeSample => CalibrationOutcome {
            state: Calibration { phase: CalibrationPhase::Verifying, ..state },
            script: seq![
                modify(Field::GpAdcOffp, Update::Store(state.positive as u32)),
                modify(Field::GpAdcOffn, Update::Store(correction_for(sample_of(reply)) as u32)),
                modify(Field::GpAdcSign, Update::Store(0)),
            ] + conversion_script(),
            step: Step::Ask(Field::GpAdcVal),
        },
        CalibrationPhase::Verifying => if residual_of(sample_of(reply)) >= CALIBRATION_THRESHOLD {
            CalibrationOutcome {
                state: Calibration { phase: CalibrationPhase::Failed, ..state },
                script: Seq::<Instr>::empty(),
                step: Step::Done(Err(CalibrationFailed)),
            }
        } else {
            CalibrationOutcome {
                state: Calibration { phase: CalibrationPhase::Calibrated, ..state },
                script: Seq::<Instr>::empty(),
                step: Step::Done(Ok(())),
            }
        },
        CalibrationPhase::Calibrated => CalibrationOutcome {
            state,
            script: Seq::<Instr>::empty(),
            step: Step::Done(Ok(())),
        },
        CalibrationPhase::Failed => CalibrationOutcome {
            state,
            script: Seq::<Instr>::empty(),
            step: Step::Done(Err(CalibrationFailed)),
        },
    }
}

fn record_conversion(script: &mut Script)
    ensures
        final(script)@ == old(script)@ + conversion_script(),
{
    script.modify(Field::GpAdcStart, Update::Store(1));
    script.wait_clear(Field::GpAdcStart);
    script.overwrite(Field::GpAdcClrInt, 1);
    assert(script@ =~= old(script)@ + conversion_script());
}

/// The sample that a word read from the result register holds.
pub fn sample(word: u32) -> (sample: u16)
    ensures
        sample == sample_of(word),
{
    (word % 0x1_0000) as u16
}

/// The value of an offset register that corrects the offset that a sample
/// shows.
pub fn correction(sample: u16) -> (value: u16)
    ensures
        value == correction_for(sample),
{
    let ten: i32 = (sample / 64) as i32;
    let wanted: i32 = 0x200 - 2 * (ten - 0x200);
    if wanted < 0 {
        (wanted + 0x1_0000) as u16
    } else {
        wanted as u16
    }
}

/// How far the ten bits of a sample lie from the middle of the scale.
pub fn residual(sample: u16) -> (distance: u16)
    ensures
        distance == residual_of(sample),
{
    let ten: u16 = sample / 64;
    if ten > 0x200 {
        ten - 0x200
    } else {
        0x200 - ten
    }
}

impl Calibration {
    /// One step of the calibration. The first call takes no reply; each
    /// later one takes the value of the field that the call before asked
    /// for. A residual at or above [`CALIBRATION_THRESHOLD`] in the
    /// verifying conversion fails the calibration.
    pub fn resume(&mut self, gpadc: &GpAdc, reply: u32, script: &mut Script) -> (step: Step<
        Result<(), CalibrationFailed>,
    >)
        ensures
            *final(self) == calibration_step(*old(self), reply).state,
            final(script)@ == old(script)@ + calibration_step(*old(self), reply).script,
            step == calibration_step(*old(self), reply).step,
    {
        match self.phase {
            CalibrationPhase::Start => {
                let config = AdcConfig::default().set_adc_trim_val(
                    self.adc_trim_val,
                ).set_sample_time(crate::gpadc::config::SampleTime::Cycles1X8).set_averaging(
                    Averaging::SamplesX128,
                );
                let ask = gpadc.init(config, script);
                self.phase = CalibrationPhase::Enabling;
                Step::Ask(ask)
            },
            CalibrationPhase::Enabling => {
                gpadc.wait_enabled((reply % 0x100) as u8, script);
                gpadc.enable_20u_sink(script);
                script.modify(Field::GpAdcOffp, Update::Store(MID_SCALE as u32));
                script.modify(Field::GpAdcOffn, Update::Store(MID_SCALE as u32));
                script.modify(Field::GpAdcMute, Update::Store(1));
                script.and(Field::GpAdcSign, 0);
                record_conversion(script);
                self.phase = CalibrationPhase::PositiveSample;
                assert(script@ =~= old(script)@ + calibration_step(*old(self), reply).script);
                Step::Ask(Field::GpAdcVal)
            },
            CalibrationPhase::PositiveSample => {
                self.positive = correction(sample(reply));
                script.modify(Field::GpAdcSign, Update::Store(1));
                record_conversion(script);
                self.phase = CalibrationPhase::NegativeSample;
                assert(script@ =~= old(script)@ + calibration_step(*old(self), reply).script);
                Step::Ask(Field::GpAdcVal)
            },
            CalibrationPhase::NegativeSample => {
                let negative: u16 = correction(sample(reply));
                script.modify(Field::GpAdcOffp, Update::Store(self.positive as u32));
                script.modify(Field::GpAdcOffn, Update::Store(negative as u32));
                script.modify(Field::GpAdcSign, Update::Store(0));
                record_conversion(script);
                self.phase = CalibrationPhase::Verifying;
                assert(script@ =~= old(script)@ + calibration_step(*old(self), reply).script);
                Step::Ask(Field::GpAdcVal)
            },
            CalibrationPhase::Verifying => {
                assert(script@ =~= old(script)@ + Seq::<Instr>::empty());
                if residual(sample(reply)) >= CALIBRATION_THRESHOLD {
                    self.phase = CalibrationPhase::Failed;
                    Step::Done(Err(CalibrationFailed))
                } else {
                    self.phase = CalibrationPhase::Calibrated;
                    Step::Done(Ok(()))
                }
            },
            CalibrationPhase::Calibrated => {
                assert(script@ =~= old(script)@ + Seq::<Instr>::empty());
                Step::Done(Ok(()))
            },
            CalibrationPhase::Failed => {
                assert(script@ =~= old(script)@ + Seq::<Instr>::empty());
                Step::Done(Err(CalibrationFailed))
            },
        }
    }
}

impl GpAdc {
    /// The token that the driver was made from, and holds.
    pub closed spec fn token(&self) -> GPADC {
        self.gpadc
    }

    /// Begin a calibration of the converter's offset with this trim word.
    pub fn calibrate_offset(&self, adc_trim_val: u16) -> (calibration: Calibration)
        ensures
            calibration == (Calibration {
                adc_trim_val,
                phase: CalibrationPhase::Start,
                positive: MID_SCALE,
            }),
    {
        Calibration { adc_trim_val, phase: CalibrationPhase::Start, positive: MID_SCALE }
    }

    /// Reset the converter, trim and configure it and switch it on. Returns
    /// the field that holds the enable delay, to be read and handed to
    /// [`GpAdc::wait_enabled`].
    pub fn init(&self, adc_config: AdcConfig, script: &mut Script) -> (ask: Field)
        ensures
            ask == Field::GpAdcEnDel,
            final(script)@ == old(script)@ + init_script(adc_config),
    {
        self.reset(script);
        script.modify(Field::GpAdcTrimWord, Update::Store(adc_config.adc_trim_val as u32));
        script.and(Field::GpAdcLdoLevel, LDO_LEVEL);
        self.configure(adc_config, script);
        let ask = self.enable(script);
        assert(script@ =~= old(script)@ + init_script(adc_config));
        ask
    }

    /// Configure the converter.
    pub fn configure(&self, adc_config: AdcConfig, script: &mut Script)
        ensures
            final(script)@ == old(script)@ + configure_script(adc_config),
    {
        script.modify(Field::GpAdcSe, Update::Store(word(adc_config.mode.flag())));
        script.and(Field::GpAdcCont, word(adc_config.continuous.flag()));
        script.and(Field::DieTempEn, word(adc_config.enable_die_temp));
        script.and(Field::GpAdcChop, word(adc_config.chopper.flag()));
        script.modify(Field::GpAdcSelP, Update::Store(adc_config.channel_sel_pos as u32));
        script.and(Field::GpAdcSelN, adc_config.channel_sel_neg as u32);
        if adc_config.enable_die_temp {
            script.cpu(CpuOp::Delay(DIE_TEMP_SETTLE_CYCLES));
        }
        script.modify(Field::GpAdcOffsShEn, Update::Store(word(adc_config.shifter.flag())));
        script.and(Field::GpAdcAttn, adc_config.attenuation.code() as u32);
        script.and(Field::GpAdcConvNrs, adc_config.averaging.code() as u32);
        script.and(Field::GpAdcSmplTime, adc_config.sample_time.code() as u32);
        assert(script@ =~= old(script)@ + configure_script(adc_config));
    }

    /// Switch the converter on. Returns the field that holds the enable
    /// delay, to be read and handed to [`GpAdc::wait_enabled`].
    pub fn enable(&self, script: &mut Script) -> (ask: Field)
        ensures
            ask == Field::GpAdcEnDel,
            final(script)@ == old(script)@ + power_script(true),
    {
        script.modify(Field::GpAdcEn, Update::Store(1));
        assert(script@ =~= old(script)@ + power_script(true));
        Field::GpAdcEnDel
    }

    /// Wait until the converter that was switched on is ready.
    pub fn wait_enabled(&self, en_del: u8, script: &mut Script)
        ensures
            final(script)@ == old(script)@ + enable_delay_script(en_del),
    {
        let delay_cycles: u32 = 4 * (en_del as u32);
        script.cpu(CpuOp::Delay(delay_cycles));
        assert(script@ =~= old(script)@ + enable_delay_script(en_del));
    }

    /// Switch the converter off.
    pub fn disable(&self, script: &mut Script)
        ensures
            final(script)@ == old(script)@ + power_script(false),
    {
        script.modify(Field::GpAdcEn, Update::Store(0));
        assert(script@ =~= old(script)@ + power_script(false));
    }

    /// Give the converter's registers their reset values.
    pub fn reset(&self, script: &mut Script)
        ensures
            final(script)@ == old(script)@ + reset_script(),
    {
        script.reset(Reg::GpAdcCtrl);
        script.reset(Reg::GpAdcCtrl2);
        script.reset(Reg::GpAdcCtrl3);
        script.reset(Reg::GpAdcSel);
        script.reset(Reg::GpAdcTrim);
        assert(script@ =~= old(script)@ + reset_script());
    }

    /// Switch the constant current sink of the regulator on.
    pub fn enable_20u_sink(&self, script: &mut Script)
        ensures
            final(script)@ == old(script)@ + sink_script(true),
    {
        script.modify(Field::GpAdcI20u, Update::Store(1));
        assert(script@ =~= old(script)@ + sink_script(true));
    }

    /// Switch the constant current sink of the regulator off.
    pub fn disable_20u_sink(&self, script: &mut Script)
        ensures
            final(script)@ == old(script)@ + sink_script(false),
    {
        script.modify(Field::GpAdcI20u, Update::Store(0));
        assert(script@ =~= old(script)@ + sink_script(false));
    }

    /// Switch the input shifter on.
    pub fn enable_shifter(&self, script: &mut Script)
        ensures
            final(script)@ == old(script)@ + shifter_script(true),
    {
        script.modify(Field::GpAdcOffsShEn, Update::Store(1));
        assert(script@ =~= old(script)@ + shifter_script(true));
    }

    /// Switch the input shifter off.
    pub fn disable_shifter(&self, script: &mut Script)
        ensures
            final(script)@ == old(script)@ + shifter_script(false),
    {
        script.modify(Field::GpAdcOffsShEn, Update::Store(0));
        assert(script@ =~= old(script)@ + shifter_script(false));
    }

    /// Start a conversion.
    pub fn start_conversion(&self, script: &mut Script)
        ensures
            final(script)@ == old(script)@ + start_conversion_script(),
    {
        script.modify(Field::GpAdcStart, Update::Store(1));
        assert(script@ =~= old(script)@ + start_conversion_script());
    }

    /// Wait for the conversion to end, and acknowledge its interrupt.
    pub fn wait_for_conversion(&self, script: &mut Script)
        ensures
            final(script)@ == old(script)@ + wait_for_conversion_script(),
    {
        script.wait_clear(Field::GpAdcStart);
        script.overwrite(Field::GpAdcClrInt, 1);
        assert(script@ =~= old(script)@ + wait_for_conversion_script());
    }

    /// The sample of the conversion that ended last, from what
    /// [`Field::GpAdcVal`] read.
    pub fn current_sample(&self, gp_adc_val: u32) -> (sample: u16)
        ensures
            sample == sample_of(gp_adc_val),
    {
        sample(gp_adc_val)
    }

    /// Whether the input shifter is on, from what [`Field::GpAdcOffsShEn`]
    /// read.
    pub fn has_shifter(&self, gp_adc_offs_sh_en: u32) -> (on: bool)
        ensures
            on == (gp_adc_offs_sh_en != 0),
    {
        gp_adc_offs_sh_en != 0
    }
}

/// What configuring leaves behind: each field of the converter holds what
/// the configuration says.
pub proof fn lemma_configure_programs(history: Seq<Instr>, config: AdcConfig)
    ensures
        ({
            let after = history + configure_script(config);
            &&& reading(after, Field::GpAdcSe) == bit(config.mode == InputMode::SingleEnded)
            &&& reading(after, Field::GpAdcCont) == bit(
                config.continuous == Continuous::Continuous,
            )
            &&& reading(after, Field::DieTempEn) == bit(config.enable_die_temp)
            &&& reading(after, Field::GpAdcChop) == bit(config.chopper == Chopper::On)
            &&& reading(after, Field::GpAdcSelP) == config.channel_sel_pos
            &&& reading(after, Field::GpAdcSelN) == config.channel_sel_neg
            &&& reading(after, Field::GpAdcOffsShEn) == bit(config.shifter == Shifter::On)
            &&& reading(after, Field::GpAdcAttn) == attenuation_code(config.attenuation)
            &&& reading(after, Field::GpAdcConvNrs) == averaging_code(config.averaging)
            &&& reading(after, Field::GpAdcSmplTime) == sample_time_code(config.sample_time)
        }),
{
    let s = configure_script(config);
    let shift: int = if config.enable_die_temp {
        1
    } else {
        0
    };
    assert(s.len() == 10 + shift);
    lemma_last_store(
        history,
        s,
        0,
        Field::GpAdcSe,
        bit(config.mode == InputMode::SingleEnded),
    );
    lemma_last_store(
        history,
        s,
        1,
        Field::GpAdcCont,
        bit(config.continuous == Continuous::Continuous),
    );
    lemma_last_store(history, s, 2, Field::DieTempEn, bit(config.enable_die_temp));
    lemma_last_store(history, s, 3, Field::GpAdcChop, bit(config.chopper == Chopper::On));
    lemma_last_store(history, s, 4, Field::GpAdcSelP, config.channel_sel_pos as u32);
    lemma_last_store(history, s, 5, Field::GpAdcSelN, config.channel_sel_neg as u32);
    lemma_last_store(
        history,
        s,
        6 + shift,
        Field::GpAdcOffsShEn,
        bit(config.shifter == Shifter::On),
    );
    lemma_last_store(
        history,
        s,
        7 + shift,
        Field::GpAdcAttn,
        attenuation_code(config.attenuation) as u32,
    );
    lemma_last_store(
        history,
        s,
        8 + shift,
        Field::GpAdcConvNrs,
        averaging_code(config.averaging) as u32,
    );
    lemma_last_store(
        history,
        s,
        9 + shift,
        Field::GpAdcSmplTime,
        sample_time_code(config.sample_time) as u32,
    );
}

/// A sample in the middle of the scale shows no offset: both corrections
/// are the neutral value, and the residual is zero, below the threshold.
pub proof fn lemma_unbiased_sample(sample: u16)
    requires
        ten_bits(sample) == MID_SCALE,
    ensures
        offset_of(sample) == 0,
        correction_for(sample) == MID_SCALE,
        residual_of(sample) == 0,
        residual_of(sample) < CALIBRATION_THRESHOLD,
{
}

/// A calibration on an unbiased converter succeeds: with both samples in
/// the middle of the scale, the offset registers get the neutral value
/// again, and a verifying sample in the middle of the scale ends the
/// calibration with success.
pub proof fn lemma_unbiased_calibration(adc_trim_val: u16, reply: u32)
    requires
        ten_bits(sample_of(reply)) == MID_SCALE,
    ensures
        calibration_step(
            Calibration { adc_trim_val, phase: CalibrationPhase::PositiveSample, positive: MID_SCALE },
            reply,
        ).state.positive == MID_SCALE,
        calibration_step(
            Calibration { adc_trim_val, phase: CalibrationPhase::NegativeSample, positive: MID_SCALE },
            reply,
        ).script == seq![
            modify(Field::GpAdcOffp, Update::Store(MID_SCALE as u32)),
            modify(Field::GpAdcOffn, Update::Store(MID_SCALE as u32)),
            modify(Field::GpAdcSign, Update::Store(0)),
        ] + conversion_script(),
        calibration_step(
            Calibration { adc_trim_val, phase: CalibrationPhase::Verifying, positive: MID_SCALE },
            reply,
        ).step == Step::Done(Ok::<(), CalibrationFailed>(())),
{
    lemma_unbiased_sample(sample_of(reply));
}

/// The verifying conversion decides by the threshold alone: the calibration
/// fails exactly when the residual is at or above it.
pub proof fn lemma_calibration_verdict(state: Calibration, reply: u32)
    requires
        state.phase == CalibrationPhase::Verifying,
    ensures
        calibration_step(state, reply).step == if residual_of(sample_of(reply))
            >= CALIBRATION_THRESHOLD {
            Step::Done(Err::<(), CalibrationFailed>(CalibrationFailed))
        } else {
            Step::Done(Ok::<(), CalibrationFailed>(()))
        },
{
}

} // verus!
