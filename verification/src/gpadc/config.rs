//! Configuration of the analog to digital converter.

use crate::gpio::p0::PortPin;
use crate::gpio::AfAdc;
use vstd::prelude::*;

verus! {

/// The die temperature sensor as input.
pub struct AdcInputTemp;

/// The high battery rail as input.
pub struct AdcInputVbatHigh;

/// The low battery rail as input.
pub struct AdcInputVbatLow;

/// The digital supply as input.
pub struct AdcInputVddd;

/// The channel of the temperature sensor, which is switched on with it.
pub const TEMPERATURE_CHANNEL: u8 = 4;

/// Something that the converter can measure: it has a channel.
pub trait Channel {
    /// The number of the channel.
    spec fn channel_id() -> u8;

    /// The number of the channel.
    fn channel() -> (id: u8)
        ensures
            id == Self::channel_id(),
    ;
}

/// An input for the positive side of the converter.
pub trait AdcInputPositive: Channel {

}

/// An input for the negative side of the converter.
pub trait AdcInputNegative: Channel {

}

impl Channel for PortPin<1, AfAdc> {
    open spec fn channel_id() -> u8 {
        0
    }

    fn channel() -> (id: u8) {
        0
    }
}

impl AdcInputPositive for PortPin<1, AfAdc> {

}

impl AdcInputNegative for PortPin<1, AfAdc> {

}

impl Channel for PortPin<2, AfAdc> {
    open spec fn channel_id() -> u8 {
        1
    }

    fn channel() -> (id: u8) {
        1
    }
}

impl AdcInputPositive for PortPin<2, AfAdc> {

}

impl AdcInputNegative for PortPin<2, AfAdc> {

}

impl Channel for PortPin<6, AfAdc> {
    open spec fn channel_id() -> u8 {
        2
    }

    fn channel() -> (id: u8) {
        2
    }
}

impl AdcInputPositive for PortPin<6, AfAdc> {

}

impl AdcInputNegative for PortPin<6, AfAdc> {

}

impl Channel for PortPin<7, AfAdc> {
    open spec fn channel_id() -> u8 {
        3
    }

    fn channel() -> (id: u8) {
        3
    }
}

impl AdcInputPositive for PortPin<7, AfAdc> {

}

impl AdcInputNegative for PortPin<7, AfAdc> {

}

impl Channel for AdcInputTemp {
    open spec fn channel_id() -> u8 {
        4
    }

    fn channel() -> (id: u8) {
        4
    }
}

impl AdcInputPositive for AdcInputTemp {

}

impl Channel for AdcInputVbatHigh {
    open spec fn channel_id() -> u8 {
        5
    }

    fn channel() -> (id: u8) {
        5
    }
}

impl AdcInputPositive for AdcInputVbatHigh {

}

impl Channel for AdcInputVbatLow {
    open spec fn channel_id() -> u8 {
        6
    }

    fn channel() -> (id: u8) {
        6
    }
}

impl AdcInputPositive for AdcInputVbatLow {

}

impl Channel for AdcInputVddd {
    open spec fn channel_id() -> u8 {
        7
    }

    fn channel() -> (id: u8) {
        7
    }
}

impl AdcInputPositive for AdcInputVddd {

}

/// Whether the converter measures one input against ground or two against
/// each other.
#[derive(Clone, Copy, PartialEq, Eq, Debug, Structural)]
pub enum InputMode {
    Differential,
    SingleEnded,
}

impl Default for InputMode {
    fn default() -> (mode: Self)
        ensures
            mode == InputMode::SingleEnded,
    {
        Self::SingleEnded
    }
}

impl InputMode {
    /// The flag that selects the mode: set for single ended.
    pub fn flag(self) -> (flag: bool)
        ensures
            flag == (self == InputMode::SingleEnded),
    {
        match self {
            InputMode::Differential => false,
            InputMode::SingleEnded => true,
        }
    }
}

impl From<InputMode> for bool {
    fn from(value: InputMode) -> (flag: bool) {
        value.flag()
    }
}

impl vstd::std_specs::convert::FromSpecImpl<InputMode> for bool {
    open spec fn obeys_from_spec() -> bool {
        true
    }

    open spec fn from_spec(value: InputMode) -> bool {
        value == InputMode::SingleEnded
    }
}

/// Whether each sample is taken twice, with opposite signs.
#[derive(Clone, Copy, PartialEq, Eq, Debug, Structural)]
pub enum Chopper {
    Off,
    On,
}

impl Default for Chopper {
    fn default() -> (chopper: Self)
        ensures
            chopper == Chopper::Off,
    {
        Self::Off
    }
}

impl Chopper {
    /// The flag that switches the chopper: set for on.
    pub fn flag(self) -> (flag: bool)
        ensures
            flag == (self == Chopper::On),
    {
        match self {
            Chopper::Off => false,
            Chopper::On => true,
        }
    }
}

impl From<Chopper> for bool {
    fn from(value: Chopper) -> (flag: bool) {
        value.flag()
    }
}

impl vstd::std_specs::convert::FromSpecImpl<Chopper> for bool {
    open spec fn obeys_from_spec() -> bool {
        true
    }

    open spec fn from_spec(value: Chopper) -> bool {
        value == Chopper::On
    }
}

/// Whether the converter goes on converting by itself.
#[derive(Clone, Copy, PartialEq, Eq, Debug, Structural)]
pub enum Continuous {
    Single,
    Continuous,
}

impl Default for Continuous {
    fn default() -> (continuous: Self)
        ensures
            continuous == Continuous::Single,
    {
        Self::Single
    }
}

impl Continuous {
    /// The flag that selects continuous conversion.
    pub fn flag(self) -> (flag: bool)
        ensures
            flag == (self == Continuous::Continuous),
    {
        match self {
            Continuous::Single => false,
            Continuous::Continuous => true,
        }
    }
}

impl From<Continuous> for bool {
    fn from(value: Continuous) -> (flag: bool) {
        value.flag()
    }
}

impl vstd::std_specs::convert::FromSpecImpl<Continuous> for bool {
    open spec fn obeys_from_spec() -> bool {
        true
    }

    open spec fn from_spec(value: Continuous) -> bool {
        value == Continuous::Continuous
    }
}

/// By how much the input is attenuated.
#[derive(Clone, Copy, PartialEq, Eq, Debug, Structural)]
pub enum Attenuation {
    X1,
    X2,
    X3,
    X4,
}

impl Default for Attenuation {
    fn default() -> (attenuation: Self)
        ensures
            attenuation == Attenuation::X1,
    {
        Self::X1
    }
}

/// The code of an attenuation in its register field.
pub open spec fn attenuation_code(attenuation: Attenuation) -> u8 {
    match attenuation {
        Attenuation::X1 => 0,
        Attenuation::X2 => 1,
        Attenuation::X3 => 2,
        Attenuation::X4 => 3,
    }
}

impl Attenuation {
    /// The code of the attenuation in its register field.
    pub fn code(self) -> (code: u8)
        ensures
            code == attenuation_code(self),
    {
        match self {
            Attenuation::X1 => 0,
            Attenuation::X2 => 1,
            Attenuation::X3 => 2,
            Attenuation::X4 => 3,
        }
    }
}

/// Over how many samples a result is averaged.
#[derive(Clone, Copy, PartialEq, Eq, Debug, Structural)]
pub enum Averaging {
    SamplesX1,
    SamplesX2,
    SamplesX4,
    SamplesX8,
    SamplesX16,
    SamplesX32,
    SamplesX128,
}

impl Default for Averaging {
    fn default() -> (averaging: Self)
        ensures
            averaging == Averaging::SamplesX1,
    {
        Self::SamplesX1
    }
}

/// The code of an averaging in its register field.
pub open spec fn averaging_code(averaging: Averaging) -> u8 {
    match averaging {
        Averaging::SamplesX1 => 0,
        Averaging::SamplesX2 => 1,
        Averaging::SamplesX4 => 2,
        Averaging::SamplesX8 => 3,
        Averaging::SamplesX16 => 4,
        Averaging::SamplesX32 => 5,
        Averaging::SamplesX128 => 6,
    }
}

impl Averaging {
    /// The code of the averaging in its register field.
    pub fn code(self) -> (code: u8)
        ensures
            code == averaging_code(self),
    {
        match self {
            Averaging::SamplesX1 => 0,
            Averaging::SamplesX2 => 1,
            Averaging::SamplesX4 => 2,
            Averaging::SamplesX8 => 3,
            Averaging::SamplesX16 => 4,
            Averaging::SamplesX32 => 5,
            Averaging::SamplesX128 => 6,
        }
    }
}

/// For how long the input is sampled, in units of eight converter clocks.
#[derive(Clone, Copy, PartialEq, Eq, Debug, Structural)]
pub enum SampleTime {
    Cycles1X8,
    Cycles2X8,
    Cycles3X8,
    Cycles4X8,
    Cycles5X8,
    Cycles6X8,
    Cycles7X8,
    Cycles8X8,
    Cycles9X8,
    Cycles10X8,
    Cycles11X8,
    Cycles12X8,
    Cycles13X8,
    Cycles14X8,
    Cycles15X8,
}

impl Default for SampleTime {
    fn default() -> (sample_time: Self)
        ensures
            sample_time == SampleTime::Cycles1X8,
    {
        Self::Cycles1X8
    }
}

/// The code of a sample time in its register field.
pub open spec fn sample_time_code(sample_time: SampleTime) -> u8 {
    match sample_time {
        SampleTime::Cycles1X8 => 0,
        SampleTime::Cycles2X8 => 1,
        SampleTime::Cycles3X8 => 2,
        SampleTime::Cycles4X8 => 3,
        SampleTime::Cycles5X8 => 4,
        SampleTime::Cycles6X8 => 5,
        SampleTime::Cycles7X8 => 6,
        SampleTime::Cycles8X8 => 7,
        SampleTime::Cycles9X8 => 8,
        SampleTime::Cycles10X8 => 9,
        SampleTime::Cycles11X8 => 10,
        SampleTime::Cycles12X8 => 11,
        SampleTime::Cycles13X8 => 12,
        SampleTime::Cycles14X8 => 13,
        SampleTime::Cycles15X8 => 14,
    }
}

impl SampleTime {
    /// The code of the sample time in its register field.
    pub fn code(self) -> (code: u8)
        ensures
            code == sample_time_code(self),
    {
        match self {
            SampleTime::Cycles1X8 => 0,
            SampleTime::Cycles2X8 => 1,
            SampleTime::Cycles3X8 => 2,
            SampleTime::Cycles4X8 => 3,
            SampleTime::Cycles5X8 => 4,
            SampleTime::Cycles6X8 => 5,
            SampleTime::Cycles7X8 => 6,
            SampleTime::Cycles8X8 => 7,
            SampleTime::Cycles9X8 => 8,
            SampleTime::Cycles10X8 => 9,
            SampleTime::Cycles11X8 => 10,
            SampleTime::Cycles12X8 => 11,
            SampleTime::Cycles13X8 => 12,
            SampleTime::Cycles14X8 => 13,
            SampleTime::Cycles15X8 => 14,
        }
    }
}

/// Whether the input is shifted into the converter's range.
#[derive(Clone, Copy, PartialEq, Eq, Debug, Structural)]
pub enum Shifter {
    Off,
    On,
}

impl Default for Shifter {
    fn default() -> (shifter: Self)
        ensures
            shifter == Shifter::Off,
    {
        Self::Off
    }
}

impl Shifter {
    /// The flag that switches the shifter: set for on.
    pub fn flag(self) -> (flag: bool)
        ensures
            flag == (self == Shifter::On),
    {
        match self {
            Shifter::Off => false,
            Shifter::On => true,
        }
    }
}

impl From<Shifter> for bool {
    fn from(value: Shifter) -> (flag: bool) {
        value.flag()
    }
}

impl vstd::std_specs::convert::FromSpecImpl<Shifter> for bool {
    open spec fn obeys_from_spec() -> bool {
        true
    }

    open spec fn from_spec(value: Shifter) -> bool {
        value == Shifter::On
    }
}

/// What the converter is configured with.
#[derive(Copy, Clone, PartialEq, Eq, Debug, Structural)]
pub struct AdcConfig {
    pub mode: InputMode,
    pub chopper: Chopper,
    pub sample_time: SampleTime,
    pub averaging: Averaging,
    pub shifter: Shifter,
    pub attenuation: Attenuation,
    pub continuous: Continuous,
    pub channel_sel_pos: u8,
    pub channel_sel_neg: u8,
    pub enable_die_temp: bool,
    pub adc_trim_val: u16,
}

/// The configuration that every building starts from: one single ended
/// conversion of channel 0, nothing else switched on.
pub open spec fn default_config() -> AdcConfig {
    AdcConfig {
        mode: InputMode::SingleEnded,
        chopper: Chopper::Off,
        sample_time: SampleTime::Cycles1X8,
        averaging: Averaging::SamplesX1,
        shifter: Shifter::Off,
        attenuation: Attenuation::X1,
        continuous: Continuous::Single,
        channel_sel_pos: 0,
        channel_sel_neg: 0,
        enable_die_temp: false,
        adc_trim_val: 0,
    }
}

impl Default for AdcConfig {
    fn default() -> (config: Self)
        ensures
            config == default_config(),
    {
        Self {
            mode: InputMode::SingleEnded,
            chopper: Chopper::Off,
            sample_time: SampleTime::Cycles1X8,
            averaging: Averaging::SamplesX1,
            attenuation: Attenuation::X1,
            continuous: Continuous::Single,
            shifter: Shifter::Off,
            channel_sel_pos: 0,
            channel_sel_neg: 0,
            enable_die_temp: false,
            adc_trim_val: 0,
        }
    }
}

impl AdcConfig {
    /// Measure `_pin` on the positive side. The temperature sensor is
    /// switched on when it is chosen, and stays on.
    pub fn set_channel_pos<P: AdcInputPositive>(self, _pin: P) -> (config: Self)
        ensures
            config == (AdcConfig {
                channel_sel_pos: P::channel_id(),
                enable_die_temp: self.enable_die_temp || P::channel_id() == TEMPERATURE_CHANNEL,
                ..self
            }),
    {
        let mut config = self;
        let channel: u8 = P::channel();
        config.channel_sel_pos = channel;
        if channel == TEMPERATURE_CHANNEL {
            config.enable_die_temp = true;
        }
        config
    }

    /// Measure against `_pin` on the negative side: the mode becomes
    /// differential, and the channel's bits are added to the selection.
    pub fn set_channel_neg<N: AdcInputNegative>(self, _pin: N) -> (config: Self)
        ensures
            config == (AdcConfig {
                mode: InputMode::Differential,
                channel_sel_neg: self.channel_sel_neg | N::channel_id(),
                ..self
            }),
    {
        let mut config = self;
        config.mode = InputMode::Differential;
        config.channel_sel_neg = config.channel_sel_neg | N::channel();
        config
    }

    /// Choose the attenuation.
    pub fn set_attenuation(self, attenuation: Attenuation) -> (config: Self)
        ensures
            config == (AdcConfig { attenuation, ..self }),
    {
        let mut config = self;
        config.attenuation = attenuation;
        config
    }

    /// Switch the chopper.
    pub fn set_chopper_mode(self, chopper: Chopper) -> (config: Self)
        ensures
            config == (AdcConfig { chopper, ..self }),
    {
        let mut config = self;
        config.chopper = chopper;
        config
    }

    /// Choose the sample time.
    pub fn set_sample_time(self, sample_time: SampleTime) -> (config: Self)
        ensures
            config == (AdcConfig { sample_time, ..self }),
    {
        let mut config = self;
        config.sample_time = sample_time;
        config
    }

    /// Choose the averaging.
    pub fn set_averaging(self, averaging: Averaging) -> (config: Self)
        ensures
            config == (AdcConfig { averaging, ..self }),
    {
        let mut config = self;
        config.averaging = averaging;
        config
    }

    /// Switch the shifter.
    pub fn set_shifter(self, shifter: Shifter) -> (config: Self)
        ensures
            config == (AdcConfig { shifter, ..self }),
    {
        let mut config = self;
        config.shifter = shifter;
        config
    }

    /// Set the trim word.
    pub fn set_adc_trim_val(self, val: u16) -> (config: Self)
        ensures
            config == (AdcConfig { adc_trim_val: val, ..self }),
    {
        let mut config = self;
        config.adc_trim_val = val;
        config
    }
}

} // verus!
