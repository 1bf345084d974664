//! The vocabulary in which the drivers speak to the device: registers, their
//! named fields, and the instructions that a driver records for its caller to
//! perform.
//!
//! A driver never touches the hardware. It appends [`Instr`] values to a
//! [`crate::script::Script`]; whoever owns the real register file performs them
//! in order. Values that a decision depends on are read by the caller and handed
//! back as plain integers.

use vstd::prelude::*;

verus! {

/// A register of the device. A variant with a number stands for one register
/// of a bank: a port pin, a PWM channel or an interrupt vector.
#[derive(Clone, Copy, Debug, PartialEq, Eq, Structural)]
pub enum Reg {
    /// Peripheral clock gating and timer divider.
    ClkPer,
    /// Bus clock dividers and the OTP clock gate.
    ClkAmba,
    /// System control.
    SysCtrl,
    /// System status, read only.
    SysStat,
    /// Analog status, read only.
    AnaStatus,
    /// Power state of the three RAM banks.
    RamPwrCtrl,
    /// Pad latch control.
    PadLatch,
    /// Hibernation control.
    HibernCtrl,
    /// RAM low-power mode.
    RamLpmx,
    /// Always-on power control.
    PowerAonCtrl,
    /// General purpose always-on data.
    GpData,
    /// Freeze requests.
    SetFreeze,
    /// Watchdog counter.
    Watchdog,
    /// Watchdog control.
    WatchdogCtrl,
    /// Port data.
    P0Data,
    /// Port set strobe.
    P0SetData,
    /// Port reset strobe.
    P0ResetData,
    /// Wakeup control.
    WkupCtrl,
    /// Wakeup event count.
    WkupCompare,
    /// Wakeup interrupt status.
    WkupIrqStatus,
    /// Wakeup pin selection.
    WkupSelectGpio,
    /// Wakeup pin polarity.
    WkupPolGpio,
    /// OTP controller mode.
    OtpcMode,
    /// Timer 0 control.
    Timer0Ctrl,
    /// Timer 0 on-counter.
    Timer0On,
    /// Timer 0 high reload.
    Timer0ReloadM,
    /// Timer 0 low reload.
    Timer0ReloadN,
    /// Triple PWM control.
    TriplePwmCtrl,
    /// Triple PWM frequency divider.
    TriplePwmFrequency,
    /// I2C configuration.
    I2cCon,
    /// I2C target address.
    I2cTar,
    /// I2C data and command.
    I2cDataCmd,
    /// Standard speed SCL high count.
    I2cSsSclHcnt,
    /// Standard speed SCL low count.
    I2cSsSclLcnt,
    /// Full speed SCL high count.
    I2cFsSclHcnt,
    /// Full speed SCL low count.
    I2cFsSclLcnt,
    /// I2C interrupt mask, as one word.
    I2cIntrMask,
    /// Receive FIFO threshold.
    I2cRxTl,
    /// Transmit FIFO threshold.
    I2cTxTl,
    /// I2C controller enable.
    I2cEnable,
    /// I2C status, read only.
    I2cStatus,
    /// Receive FIFO level, read only.
    I2cRxflr,
    /// Abort source, read only, as one word.
    I2cTxAbrtSource,
    /// Reading it acknowledges an abort.
    I2cClrTxAbrt,
    /// ADC control.
    GpAdcCtrl,
    /// ADC control 2.
    GpAdcCtrl2,
    /// ADC control 3.
    GpAdcCtrl3,
    /// ADC input selection.
    GpAdcSel,
    /// ADC trim.
    GpAdcTrim,
    /// ADC positive offset.
    GpAdcOffp,
    /// ADC negative offset.
    GpAdcOffn,
    /// ADC interrupt acknowledge.
    GpAdcClearInt,
    /// ADC result, read only.
    GpAdcResult,
    /// Interrupt set-enable strobe.
    NvicIser,
    /// Interrupt clear-enable strobe.
    NvicIcer,
    /// Interrupt clear-pending strobe.
    NvicIcpr,
    /// What the interrupt controller holds: the enabled and the pending vectors.
    NvicState,
    /// Core system control.
    ScbScr,
    /// Mode of one port pin.
    P0Mode(u8),
    /// Start cycle of one PWM channel.
    PwmStartCycle(u8),
    /// End cycle of one PWM channel.
    PwmEndCycle(u8),
    /// Priority of one interrupt vector.
    NvicIpr(u8),
}

/// A named field of a register. Every field belongs to exactly one register,
/// [`reg_of`]. A field that stands for a whole register holds the register's
/// word.
#[derive(Clone, Copy, Debug, PartialEq, Eq, Structural)]
pub enum Field {
    // ClkPer
    QuadEnable,
    SpiEnable,
    Uart1Enable,
    Uart2Enable,
    I2cEnable,
    WakeupctEnable,
    TmrEnable,
    TmrDiv,
    // ClkAmba
    OtpEnable,
    PclkDiv,
    HclkDiv,
    // SysCtrl
    DebuggerEnable,
    RemapAdr0,
    // SysStat
    DbgIsUp,
    // AnaStatus
    ClklessWakeupStat,
    BoostSelected,
    // RamPwrCtrl
    Ram1PwrCtrl,
    Ram2PwrCtrl,
    Ram3PwrCtrl,
    // PadLatch
    PadLatchEn,
    // HibernCtrl
    HibernWkupMask,
    HibernWkupPolarity,
    HibernationEnable,
    // RamLpmx
    RamxLpmx,
    // PowerAonCtrl
    LdoRetTrim,
    ForceRunningCompDis,
    VbatHlConnectResCtrl,
    ChargeVbatDisable,
    PorVbatHighRstMask,
    PorVbatLowRstMask,
    // GpData
    AnaSpare,
    // SetFreeze
    FrzWdog,
    // Watchdog
    WdogVal,
    // WatchdogCtrl
    NmiRst,
    // P0Data
    P0Data,
    // P0SetData
    P0Set,
    // P0ResetData
    P0Reset,
    // WkupCtrl
    WkupDebValue,
    WkupEnableIrq,
    // WkupCompare
    WkupCompare,
    // WkupIrqStatus
    WkupCntrRst,
    WkupIrqStatus,
    // WkupSelectGpio
    WkupSelectGpio,
    // WkupPolGpio
    WkupPolGpio,
    // OtpcMode
    OtpcModeMode,
    // Timer0Ctrl
    Tim0Ctrl,
    Tim0ClkSel,
    PwmMode,
    Tim0ClkDiv,
    // Timer0On
    Tim0On,
    // Timer0ReloadM
    Tim0M,
    // Timer0ReloadN
    Tim0N,
    // TriplePwmCtrl
    TriplePwmEnable,
    TriplePwmClkSel,
    // TriplePwmFrequency
    PwmFreq,
    // I2cCon
    I2cSpeed,
    I2cMasterMode,
    I2cSlaveDisable,
    I2c10bitaddrMaster,
    // I2cTar
    IcTar,
    // I2cDataCmd
    I2cCmd,
    I2cStop,
    Dat,
    // I2cSsSclHcnt
    IcSsSclHcnt,
    // I2cSsSclLcnt
    IcSsSclLcnt,
    // I2cFsSclHcnt
    IcFsSclHcnt,
    // I2cFsSclLcnt
    IcFsSclLcnt,
    // I2cIntrMask
    I2cIntrMask,
    // I2cRxTl
    RxTl,
    // I2cTxTl
    TxTl,
    // I2cEnable
    CtrlEnable,
    // I2cStatus
    Tfe,
    MstActivity,
    // I2cRxflr
    Rxflr,
    // I2cTxAbrtSource
    TxAbrtSource,
    // I2cClrTxAbrt
    ClrTxAbrt,
    // GpAdcCtrl
    GpAdcEn,
    GpAdcStart,
    GpAdcSe,
    GpAdcCont,
    DieTempEn,
    GpAdcChop,
    GpAdcMute,
    GpAdcSign,
    // GpAdcCtrl2
    GpAdcI20u,
    GpAdcOffsShEn,
    GpAdcAttn,
    GpAdcConvNrs,
    GpAdcSmplTime,
    // GpAdcCtrl3
    GpAdcEnDel,
    // GpAdcSel
    GpAdcSelP,
    GpAdcSelN,
    // GpAdcTrim
    GpAdcTrimWord,
    GpAdcLdoLevel,
    // GpAdcOffp
    GpAdcOffp,
    // GpAdcOffn
    GpAdcOffn,
    // GpAdcClearInt
    GpAdcClrInt,
    // GpAdcResult
    GpAdcVal,
    // NvicIser
    NvicIser,
    // NvicIcer
    NvicIcer,
    // NvicIcpr
    NvicIcpr,
    // NvicState
    IrqEnabled,
    IrqPending,
    // ScbScr
    Sleepdeep,
    // P0Mode, one per bank entry
    Pupd(u8),
    Pid(u8),
    // PwmStartCycle, one per bank entry
    StartCycle(u8),
    // PwmEndCycle, one per bank entry
    EndCycle(u8),
    // NvicIpr, one per bank entry
    IrqPriority(u8),
}

/// The register that a field belongs to.
pub open spec fn reg_of(field: Field) -> Reg {
    match field {
        Field::QuadEnable | Field::SpiEnable | Field::Uart1Enable | Field::Uart2Enable
        | Field::I2cEnable | Field::WakeupctEnable | Field::TmrEnable | Field::TmrDiv => Reg::ClkPer,
        Field::OtpEnable | Field::PclkDiv | Field::HclkDiv => Reg::ClkAmba,
        Field::DebuggerEnable | Field::RemapAdr0 => Reg::SysCtrl,
        Field::DbgIsUp => Reg::SysStat,
        Field::ClklessWakeupStat | Field::BoostSelected => Reg::AnaStatus,
        Field::Ram1PwrCtrl | Field::Ram2PwrCtrl | Field::Ram3PwrCtrl => Reg::RamPwrCtrl,
        Field::PadLatchEn => Reg::PadLatch,
        Field::HibernWkupMask | Field::HibernWkupPolarity | Field::HibernationEnable => Reg::HibernCtrl,
        Field::RamxLpmx => Reg::RamLpmx,
        Field::LdoRetTrim | Field::ForceRunningCompDis | Field::VbatHlConnectResCtrl
        | Field::ChargeVbatDisable | Field::PorVbatHighRstMask | Field::PorVbatLowRstMask => Reg::PowerAonCtrl,
        Field::AnaSpare => Reg::GpData,
        Field::FrzWdog => Reg::SetFreeze,
        Field::WdogVal => Reg::Watchdog,
        Field::NmiRst => Reg::WatchdogCtrl,
        Field::P0Data => Reg::P0Data,
        Field::P0Set => Reg::P0SetData,
        Field::P0Reset => Reg::P0ResetData,
        Field::WkupDebValue | Field::WkupEnableIrq => Reg::WkupCtrl,
        Field::WkupCompare => Reg::WkupCompare,
        Field::WkupCntrRst | Field::WkupIrqStatus => Reg::WkupIrqStatus,
        Field::WkupSelectGpio => Reg::WkupSelectGpio,
        Field::WkupPolGpio => Reg::WkupPolGpio,
        Field::OtpcModeMode => Reg::OtpcMode,
        Field::Tim0Ctrl | Field::Tim0ClkSel | Field::PwmMode | Field::Tim0ClkDiv => Reg::Timer0Ctrl,
        Field::Tim0On => Reg::Timer0On,
        Field::Tim0M => Reg::Timer0ReloadM,
        Field::Tim0N => Reg::Timer0ReloadN,
        Field::TriplePwmEnable | Field::TriplePwmClkSel => Reg::TriplePwmCtrl,
        Field::PwmFreq => Reg::TriplePwmFrequency,
        Field::I2cSpeed | Field::I2cMasterMode | Field::I2cSlaveDisable
        | Field::I2c10bitaddrMaster => Reg::I2cCon,
        Field::IcTar => Reg::I2cTar,
        Field::I2cCmd | Field::I2cStop | Field::Dat => Reg::I2cDataCmd,
        Field::IcSsSclHcnt => Reg::I2cSsSclHcnt,
        Field::IcSsSclLcnt => Reg::I2cSsSclLcnt,
        Field::IcFsSclHcnt => Reg::I2cFsSclHcnt,
        Field::IcFsSclLcnt => Reg::I2cFsSclLcnt,
        Field::I2cIntrMask => Reg::I2cIntrMask,
        Field::RxTl => Reg::I2cRxTl,
        Field::TxTl => Reg::I2cTxTl,
        Field::CtrlEnable => Reg::I2cEnable,
        Field::Tfe | Field::MstActivity => Reg::I2cStatus,
        Field::Rxflr => Reg::I2cRxflr,
        Field::TxAbrtSource => Reg::I2cTxAbrtSource,
        Field::ClrTxAbrt => Reg::I2cClrTxAbrt,
        Field::GpAdcEn | Field::GpAdcStart | Field::GpAdcSe | Field::GpAdcCont
        | Field::DieTempEn | Field::GpAdcChop | Field::GpAdcMute | Field::GpAdcSign => Reg::GpAdcCtrl,
        Field::GpAdcI20u | Field::GpAdcOffsShEn | Field::GpAdcAttn | Field::GpAdcConvNrs
        | Field::GpAdcSmplTime => Reg::GpAdcCtrl2,
        Field::GpAdcEnDel => Reg::GpAdcCtrl3,
        Field::GpAdcSelP | Field::GpAdcSelN => Reg::GpAdcSel,
        Field::GpAdcTrimWord | Field::GpAdcLdoLevel => Reg::GpAdcTrim,
        Field::GpAdcOffp => Reg::GpAdcOffp,
        Field::GpAdcOffn => Reg::GpAdcOffn,
        Field::GpAdcClrInt => Reg::GpAdcClearInt,
        Field::GpAdcVal => Reg::GpAdcResult,
        Field::NvicIser => Reg::NvicIser,
        Field::NvicIcer => Reg::NvicIcer,
        Field::NvicIcpr => Reg::NvicIcpr,
        Field::IrqEnabled | Field::IrqPending => Reg::NvicState,
        Field::Sleepdeep => Reg::ScbScr,
        Field::Pupd(n) => Reg::P0Mode(n),
        Field::Pid(n) => Reg::P0Mode(n),
        Field::StartCycle(n) => Reg::PwmStartCycle(n),
        Field::EndCycle(n) => Reg::PwmEndCycle(n),
        Field::IrqPriority(n) => Reg::NvicIpr(n),
    }
}

/// The value that a field holds after the device's reset, and that it takes
/// again when its register is overwritten without naming it.
pub open spec fn reset_of(field: Field) -> u32 {
    match field {
        Field::QuadEnable | Field::PadLatchEn | Field::PorVbatHighRstMask | Field::I2cMasterMode
        | Field::I2cSlaveDisable | Field::I2c10bitaddrMaster | Field::Tfe | Field::GpAdcSmplTime => 1,
        Field::I2cSpeed | Field::Pupd(_) => 2,
        Field::GpAdcLdoLevel => 3,
        Field::RamxLpmx => 7,
        Field::IcFsSclHcnt => 8,
        Field::IcFsSclLcnt => 0x17,
        Field::GpAdcTrimWord => 0x38,
        Field::GpAdcEnDel => 0x40,
        Field::IcSsSclHcnt => 0x48,
        Field::IcSsSclLcnt => 0x4f,
        Field::IcTar => 0x55,
        Field::WdogVal => 0xff,
        Field::GpAdcOffp | Field::GpAdcOffn => 0x200,
        Field::I2cIntrMask => 0x8ff,
        _ => 0,
    }
}

impl Field {
    /// The register that this field belongs to.
    pub fn reg(self) -> (reg: Reg)
        ensures
            reg == reg_of(self),
    {
        match self {
            Field::QuadEnable | Field::SpiEnable | Field::Uart1Enable | Field::Uart2Enable
            | Field::I2cEnable | Field::WakeupctEnable | Field::TmrEnable | Field::TmrDiv => Reg::ClkPer,
            Field::OtpEnable | Field::PclkDiv | Field::HclkDiv => Reg::ClkAmba,
            Field::DebuggerEnable | Field::RemapAdr0 => Reg::SysCtrl,
            Field::DbgIsUp => Reg::SysStat,
            Field::ClklessWakeupStat | Field::BoostSelected => Reg::AnaStatus,
            Field::Ram1PwrCtrl | Field::Ram2PwrCtrl | Field::Ram3PwrCtrl => Reg::RamPwrCtrl,
            Field::PadLatchEn => Reg::PadLatch,
            Field::HibernWkupMask | Field::HibernWkupPolarity | Field::HibernationEnable => Reg::HibernCtrl,
            Field::RamxLpmx => Reg::RamLpmx,
            Field::LdoRetTrim | Field::ForceRunningCompDis | Field::VbatHlConnectResCtrl
            | Field::ChargeVbatDisable | Field::PorVbatHighRstMask | Field::PorVbatLowRstMask => Reg::PowerAonCtrl,
            Field::AnaSpare => Reg::GpData,
            Field::FrzWdog => Reg::SetFreeze,
            Field::WdogVal => Reg::Watchdog,
            Field::NmiRst => Reg::WatchdogCtrl,
            Field::P0Data => Reg::P0Data,
            Field::P0Set => Reg::P0SetData,
            Field::P0Reset => Reg::P0ResetData,
            Field::WkupDebValue | Field::WkupEnableIrq => Reg::WkupCtrl,
            Field::WkupCompare => Reg::WkupCompare,
            Field::WkupCntrRst | Field::WkupIrqStatus => Reg::WkupIrqStatus,
            Field::WkupSelectGpio => Reg::WkupSelectGpio,
            Field::WkupPolGpio => Reg::WkupPolGpio,
            Field::OtpcModeMode => Reg::OtpcMode,
            Field::Tim0Ctrl | Field::Tim0ClkSel | Field::PwmMode | Field::Tim0ClkDiv => Reg::Timer0Ctrl,
            Field::Tim0On => Reg::Timer0On,
            Field::Tim0M => Reg::Timer0ReloadM,
            Field::Tim0N => Reg::Timer0ReloadN,
            Field::TriplePwmEnable | Field::TriplePwmClkSel => Reg::TriplePwmCtrl,
            Field::PwmFreq => Reg::TriplePwmFrequency,
            Field::I2cSpeed | Field::I2cMasterMode | Field::I2cSlaveDisable
            | Field::I2c10bitaddrMaster => Reg::I2cCon,
            Field::IcTar => Reg::I2cTar,
            Field::I2cCmd | Field::I2cStop | Field::Dat => Reg::I2cDataCmd,
            Field::IcSsSclHcnt => Reg::I2cSsSclHcnt,
            Field::IcSsSclLcnt => Reg::I2cSsSclLcnt,
            Field::IcFsSclHcnt => Reg::I2cFsSclHcnt,
            Field::IcFsSclLcnt => Reg::I2cFsSclLcnt,
            Field::I2cIntrMask => Reg::I2cIntrMask,
            Field::RxTl => Reg::I2cRxTl,
            Field::TxTl => Reg::I2cTxTl,
            Field::CtrlEnable => Reg::I2cEnable,
            Field::Tfe | Field::MstActivity => Reg::I2cStatus,
            Field::Rxflr => Reg::I2cRxflr,
            Field::TxAbrtSource => Reg::I2cTxAbrtSource,
            Field::ClrTxAbrt => Reg::I2cClrTxAbrt,
            Field::GpAdcEn | Field::GpAdcStart | Field::GpAdcSe | Field::GpAdcCont
            | Field::DieTempEn | Field::GpAdcChop | Field::GpAdcMute | Field::GpAdcSign => Reg::GpAdcCtrl,
            Field::GpAdcI20u | Field::GpAdcOffsShEn | Field::GpAdcAttn | Field::GpAdcConvNrs
            | Field::GpAdcSmplTime => Reg::GpAdcCtrl2,
            Field::GpAdcEnDel => Reg::GpAdcCtrl3,
            Field::GpAdcSelP | Field::GpAdcSelN => Reg::GpAdcSel,
            Field::GpAdcTrimWord | Field::GpAdcLdoLevel => Reg::GpAdcTrim,
            Field::GpAdcOffp => Reg::GpAdcOffp,
            Field::GpAdcOffn => Reg::GpAdcOffn,
            Field::GpAdcClrInt => Reg::GpAdcClearInt,
            Field::GpAdcVal => Reg::GpAdcResult,
            Field::NvicIser => Reg::NvicIser,
            Field::NvicIcer => Reg::NvicIcer,
            Field::NvicIcpr => Reg::NvicIcpr,
            Field::IrqEnabled | Field::IrqPending => Reg::NvicState,
            Field::Sleepdeep => Reg::ScbScr,
            Field::Pupd(n) => Reg::P0Mode(n),
            Field::Pid(n) => Reg::P0Mode(n),
            Field::StartCycle(n) => Reg::PwmStartCycle(n),
            Field::EndCycle(n) => Reg::PwmEndCycle(n),
            Field::IrqPriority(n) => Reg::NvicIpr(n),
        }
    }

    /// The field's value after reset.
    pub fn reset_value(self) -> (value: u32)
        ensures
            value == reset_of(self),
    {
        match self {
            Field::QuadEnable | Field::PadLatchEn | Field::PorVbatHighRstMask
            | Field::I2cMasterMode | Field::I2cSlaveDisable | Field::I2c10bitaddrMaster
            | Field::Tfe | Field::GpAdcSmplTime => 1,
            Field::I2cSpeed | Field::Pupd(_) => 2,
            Field::GpAdcLdoLevel => 3,
            Field::RamxLpmx => 7,
            Field::IcFsSclHcnt => 8,
            Field::IcFsSclLcnt => 0x17,
            Field::GpAdcTrimWord => 0x38,
            Field::GpAdcEnDel => 0x40,
            Field::IcSsSclHcnt => 0x48,
            Field::IcSsSclLcnt => 0x4f,
            Field::IcTar => 0x55,
            Field::WdogVal => 0xff,
            Field::GpAdcOffp | Field::GpAdcOffn => 0x200,
            Field::I2cIntrMask => 0x8ff,
            _ => 0,
        }
    }
}
/// How a field's new value comes from the one it holds.
#[derive(Clone, Copy, Debug, PartialEq, Eq, Structural)]
pub enum Update {
    /// The field takes this value.
    Store(u32),
    /// The bits of the mask are set, the others keep their value.
    Raise(u32),
    /// The bits of the mask are cleared, the others keep their value.
    Lower(u32),
    /// The bits of the mask are inverted, the others keep their value.
    Toggle(u32),
}

/// The value that a field holds after an update, from the value before it.
pub open spec fn updated(update: Update, current: u32) -> u32 {
    match update {
        Update::Store(value) => value,
        Update::Raise(mask) => current | mask,
        Update::Lower(mask) => current & !mask,
        Update::Toggle(mask) => current ^ mask,
    }
}

impl Update {
    /// The value that a field holds after this update.
    pub fn apply(self, current: u32) -> (value: u32)
        ensures
            value == updated(self, current),
    {
        match self {
            Update::Store(value) => value,
            Update::Raise(mask) => current | mask,
            Update::Lower(mask) => current & !mask,
            Update::Toggle(mask) => current ^ mask,
        }
    }
}

/// The two ways in which a bus access changes a register.
#[derive(Clone, Copy, Debug, PartialEq, Eq, Structural)]
pub enum Access {
    /// The register is overwritten: the fields that the access does not name
    /// take their reset values.
    Write,
    /// Read, modify, write: the fields that the access does not name keep
    /// their values.
    Modify,
}

/// An operation of the processor core.
#[derive(Clone, Copy, Debug, PartialEq, Eq, Structural)]
pub enum CpuOp {
    /// Mask all interrupts.
    DisableInterrupts,
    /// One no-operation instruction.
    Nop,
    /// Halt the core until an interrupt arrives.
    WaitForInterrupt,
    /// Busy-wait for at least this many core cycles.
    Delay(u32),
}

/// One thing for the owner of the register file to do.
#[derive(Clone, Copy, Debug, PartialEq, Eq, Structural)]
pub enum Instr {
    /// Begin a bus access to the register of `field` and update the field.
    /// With `masked`, the access runs with all interrupts masked and the
    /// earlier interrupt state is restored after it.
    Put { access: Access, field: Field, update: Update, masked: bool },
    /// Update one more field within the bus access that the preceding
    /// instruction belongs to. Where no access to the field's register is in
    /// progress, it is a read-modify-write of its own.
    And { field: Field, update: Update },
    /// Give the register its reset value.
    Reset(Reg),
    /// Read the field and discard what was read.
    Touch(Field),
    /// Read the field again and again until it is not zero.
    WaitSet(Field),
    /// Read the field again and again until it is zero.
    WaitClear(Field),
    /// An operation of the core.
    Cpu(CpuOp),
}

/// Overwrite the register of `field`, storing `value` in the field.
pub open spec fn overwrite(field: Field, value: u32) -> Instr {
    Instr::Put { access: Access::Write, field, update: Update::Store(value), masked: false }
}

/// As [`overwrite`], with interrupts masked for the access.
pub open spec fn overwrite_masked(field: Field, value: u32) -> Instr {
    Instr::Put { access: Access::Write, field, update: Update::Store(value), masked: true }
}

/// Read, modify and write the register of `field`, updating the field.
pub open spec fn modify(field: Field, update: Update) -> Instr {
    Instr::Put { access: Access::Modify, field, update, masked: false }
}

/// As [`modify`], with interrupts masked for the access.
pub open spec fn modify_masked(field: Field, update: Update) -> Instr {
    Instr::Put { access: Access::Modify, field, update, masked: true }
}

/// Store `value` in one more field of the access in progress.
pub open spec fn and(field: Field, value: u32) -> Instr {
    Instr::And { field, update: Update::Store(value) }
}

/// The register word of a flag.
pub open spec fn bit(flag: bool) -> u32 {
    if flag {
        1
    } else {
        0
    }
}

/// What a blocking operation wants after the script that it recorded has been
/// performed.
#[derive(Debug, PartialEq, Eq, Structural)]
pub enum Step<T> {
    /// Read this field and call the operation again with the value.
    Ask(Field),
    /// The operation has ended with this result.
    Done(T),
}

} // verus!
