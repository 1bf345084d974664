use da14531_hal::crg_aon::sleep::{
    pin_mask_is_valid, RemapAddr, SleepConfig, SleepPhase, SleepSettings, WakeupPin,
};
use da14531_hal::crg_aon::CrgAonExt;
use da14531_hal::crg_top::CrgTopExt;
use da14531_hal::device::Device;
use da14531_hal::gpio::p0::{Parts, P0_01, P0_02, P0_03, P0_04, P0_05};
use da14531_hal::gpio::{Floating, Input, PullDown, PullUp};
use da14531_hal::interrupt::InterruptController;
use da14531_hal::nvic::NvicExt;
use da14531_hal::pac::Slot;
use da14531_hal::regs::{Access, CpuOp, Field, Instr, Step, Update};
use da14531_hal::script::Script;
use da14531_hal::sleep::SleepController;
use da14531_hal::sys_wdog::SysWdogExt;
use da14531_hal::watchdog::SystemWatchdog;

fn sleep_modify(field: Field, value: u32) -> Instr {
    Instr::Put { access: Access::Modify, field, update: Update::Store(value), masked: false }
}

fn sleep_and(field: Field, value: u32) -> Instr {
    Instr::And { field, update: Update::Store(value) }
}

fn sleep_settings(pin_mask: u8, ram: (bool, bool, bool)) -> SleepSettings {
    SleepSettings {
        pin_mask,
        ram1_on: ram.0,
        ram2_on: ram.1,
        ram3_on: ram.2,
        remap_addr: RemapAddr::ToRam1,
        pad_latch_en: true,
    }
}

fn sleep_transition(phase: SleepPhase, settings: &SleepSettings, reply: u32) -> (SleepPhase, Vec<Instr>) {
    let mut script = Script::new();
    let next = phase.advance(settings, reply, &mut script);
    (next, script.into_vec())
}

#[test]
fn pin_mask_accepts_bits_0_to_4_only() {
    assert!(pin_mask_is_valid(0b0_0001));
    assert!(pin_mask_is_valid(0b1_0000));
    assert!(pin_mask_is_valid(0b1_1111));
    assert!(!pin_mask_is_valid(0b10_0000));
    assert!(!pin_mask_is_valid(0b100_0001));
    assert!(!pin_mask_is_valid(0b1000_0000));
    assert!(!pin_mask_is_valid(0xFF));
    for mask in 0u8..=255 {
        assert_eq!(pin_mask_is_valid(mask), mask != 0 && mask < 32);
    }
}

#[test]
fn pin_mask_of_no_pin_is_not_valid() {
    assert!(!pin_mask_is_valid(0));
}

#[test]
fn wakeup_pins_map_to_mask_bits() {
    assert_eq!(<P0_01<Input<Floating>> as WakeupPin>::mask(), 0b0_0001);
    assert_eq!(<P0_02<Input<PullUp>> as WakeupPin>::mask(), 0b0_0010);
    assert_eq!(<P0_03<Input<PullDown>> as WakeupPin>::mask(), 0b0_0100);
    assert_eq!(<P0_04<Input<Floating>> as WakeupPin>::mask(), 0b0_1000);
    assert_eq!(<P0_05<Input<PullUp>> as WakeupPin>::mask(), 0b1_0000);
}

#[test]
fn sleep_config_builder_gathers_settings() {
    let parts = Parts::new(Slot::new().take().unwrap().GPIO);
    let mut script = Script::new();
    let one = parts.p0_01.into_pullup_input(&mut script);
    let five = parts.p0_05.into_floating_input(&mut script);
    let config = SleepConfig::default()
        .enable_pin(one)
        .enable_pin(five)
        .set_ram_power(true, false, true)
        .set_remap_addr(RemapAddr::ToRam3)
        .set_pad_latch_en(true);
    assert_eq!(
        config.settings(),
        SleepSettings {
            pin_mask: 0b1_0001,
            ram1_on: true,
            ram2_on: false,
            ram3_on: true,
            remap_addr: RemapAddr::ToRam3,
            pad_latch_en: true,
        }
    );
    assert!(pin_mask_is_valid(config.settings().pin_mask));
}

#[test]
fn sleep_config_default_and_new() {
    assert_eq!(
        SleepConfig::default().settings(),
        SleepSettings {
            pin_mask: 0,
            ram1_on: false,
            ram2_on: false,
            ram3_on: false,
            remap_addr: RemapAddr::ToRom,
            pad_latch_en: false,
        }
    );
    let config = SleepConfig::new(0b110, false, true, false, RemapAddr::ToOtp, false);
    assert_eq!(config.settings().pin_mask, 0b110);
    assert!(config.settings().ram2_on);
    assert_eq!(config.settings().remap_addr, RemapAddr::ToOtp);
    assert_eq!(RemapAddr::default(), RemapAddr::ToRom);
}

#[test]
fn remap_codes() {
    assert_eq!(RemapAddr::ToRom.code(), 0);
    assert_eq!(RemapAddr::ToOtp.code(), 1);
    assert_eq!(RemapAddr::ToRam1.code(), 2);
    assert_eq!(RemapAddr::ToRam3.code(), 3);
}

#[test]
fn preparing_freezes_masks_and_clears_in_that_order() {
    let settings = sleep_settings(1, (false, false, false));
    let (next, script) = sleep_transition(SleepPhase::Running, &settings, 0);
    assert_eq!(next, SleepPhase::Preparing);
    assert_eq!(
        script,
        vec![
            sleep_modify(Field::FrzWdog, 1),
            Instr::Cpu(CpuOp::DisableInterrupts),
            Instr::Put {
                access: Access::Write,
                field: Field::NvicIcpr,
                update: Update::Store(0xFFFF_FFFF),
                masked: false,
            },
        ]
    );
}

#[test]
fn debugger_is_waited_for_before_it_is_disabled() {
    let settings = sleep_settings(1, (false, false, false));
    let (next, script) = sleep_transition(SleepPhase::Preparing, &settings, 0);
    assert_eq!(next, SleepPhase::DebugQuiesced);
    assert_eq!(
        script,
        vec![Instr::WaitClear(Field::DbgIsUp), sleep_modify(Field::DebuggerEnable, 0)]
    );
}

#[test]
fn wakeup_mask_is_programmed_from_the_settings() {
    let settings = sleep_settings(0b1_0110, (false, false, false));
    let (next, script) = sleep_transition(SleepPhase::DebugQuiesced, &settings, 0);
    assert_eq!(next, SleepPhase::WakeupMasked);
    assert_eq!(script, vec![sleep_modify(Field::HibernWkupMask, 0b1_0110)]);
    assert_eq!(next.awaits(), Some(Field::ClklessWakeupStat));
}

#[test]
fn polarity_is_flipped_only_when_the_wakeup_line_is_low() {
    let settings = sleep_settings(1, (false, false, false));
    let (next, low) = sleep_transition(SleepPhase::WakeupMasked, &settings, 0);
    assert_eq!(next, SleepPhase::WakeupArmed);
    assert_eq!(
        low,
        vec![
            Instr::Put {
                access: Access::Modify,
                field: Field::HibernWkupPolarity,
                update: Update::Toggle(1),
                masked: false,
            },
            Instr::WaitSet(Field::ClklessWakeupStat),
        ]
    );
    let (_, high) = sleep_transition(SleepPhase::WakeupMasked, &settings, 1);
    assert_eq!(high, vec![Instr::WaitSet(Field::ClklessWakeupStat)]);
}

#[test]
fn hibernation_configuration_follows_the_settings() {
    let settings = sleep_settings(1, (true, false, true));
    let (next, script) = sleep_transition(SleepPhase::WakeupArmed, &settings, 0);
    assert_eq!(next, SleepPhase::HibernationConfigured);
    assert_eq!(
        script,
        vec![
            sleep_modify(Field::HibernationEnable, 1),
            sleep_modify(Field::Sleepdeep, 1),
            sleep_modify(Field::Ram1PwrCtrl, 0),
            sleep_and(Field::Ram2PwrCtrl, 1),
            sleep_and(Field::Ram3PwrCtrl, 0),
            sleep_modify(Field::RemapAdr0, 2),
            sleep_modify(Field::PadLatchEn, 1),
            sleep_modify(Field::RamxLpmx, 7),
            sleep_modify(Field::LdoRetTrim, 0x0d),
            sleep_and(Field::ForceRunningCompDis, 1),
        ]
    );
    assert_eq!(next.awaits(), Some(Field::BoostSelected));
}

#[test]
fn retention_trim_is_0e_when_no_bank_is_kept() {
    let none = sleep_settings(1, (false, false, false));
    let (_, script) = sleep_transition(SleepPhase::WakeupArmed, &none, 0);
    assert_eq!(script[8], sleep_modify(Field::LdoRetTrim, 0x0e));
    assert_eq!(script[2], sleep_modify(Field::Ram1PwrCtrl, 1));
    assert_eq!(script[3], sleep_and(Field::Ram2PwrCtrl, 1));
    assert_eq!(script[4], sleep_and(Field::Ram3PwrCtrl, 1));
    for ram in [(true, false, false), (false, true, false), (false, false, true), (true, true, true)] {
        let (_, script) = sleep_transition(SleepPhase::WakeupArmed, &sleep_settings(1, ram), 0);
        assert_eq!(script[8], sleep_modify(Field::LdoRetTrim, 0x0d));
    }
}

#[test]
fn boost_mode_forces_the_rails_together_and_disables_charging() {
    let settings = sleep_settings(1, (false, false, false));
    let (next, script) = sleep_transition(SleepPhase::HibernationConfigured, &settings, 1);
    assert_eq!(next, SleepPhase::PowerRailConfigured);
    assert_eq!(
        script,
        vec![
            sleep_modify(Field::VbatHlConnectResCtrl, 2),
            sleep_and(Field::ChargeVbatDisable, 1),
        ]
    );
}

#[test]
fn buck_mode_connects_the_rails_automatically() {
    let settings = sleep_settings(1, (false, false, false));
    let (_, script) = sleep_transition(SleepPhase::HibernationConfigured, &settings, 0);
    assert_eq!(script, vec![sleep_modify(Field::VbatHlConnectResCtrl, 3)]);
}

#[test]
fn last_phases_mask_resets_trim_oscillator_and_halt() {
    let settings = sleep_settings(1, (false, false, false));
    let (a, por) = sleep_transition(SleepPhase::PowerRailConfigured, &settings, 0);
    assert_eq!(a, SleepPhase::PowerOnResetConfigured);
    assert_eq!(
        por,
        vec![sleep_modify(Field::PorVbatHighRstMask, 1), sleep_and(Field::PorVbatLowRstMask, 0)]
    );
    let (b, spare) = sleep_transition(a, &settings, 0);
    assert_eq!(b, SleepPhase::QuiescedForRetention);
    assert_eq!(spare, vec![sleep_modify(Field::AnaSpare, 2)]);
    let (c, halt) = sleep_transition(b, &settings, 0);
    assert_eq!(c, SleepPhase::Asleep);
    assert_eq!(
        halt,
        vec![
            Instr::Cpu(CpuOp::Nop),
            Instr::Cpu(CpuOp::Nop),
            Instr::Cpu(CpuOp::Nop),
            Instr::Cpu(CpuOp::WaitForInterrupt),
        ]
    );
    let (d, nothing) = sleep_transition(c, &settings, 7);
    assert_eq!(d, SleepPhase::Asleep);
    assert!(nothing.is_empty());
    assert_eq!(c.awaits(), None);
}

#[test]
fn init_sleep_takes_three_calls_in_boost_mode() {
    let peripherals = Slot::new().take().unwrap();
    let mut crg_aon = peripherals.CRG_AON.constrain();
    let mut nvic = peripherals.NVIC.constrain();
    let mut crg_top = peripherals.CRG_TOP.constrain();
    let mut wdog = peripherals.SYS_WDOG.constrain();
    let mut scb = peripherals.SCB;
    let config = SleepConfig::new(0b0_0100, true, false, false, RemapAddr::ToRam1, true);
    let mut device = Device::new();
    device.latch(Field::IrqPending, 0x0001_8000);
    let mut phase = SleepPhase::Running;

    let mut first = Script::new();
    let step = crg_aon.init_sleep(
        &mut nvic, &mut crg_top, &mut wdog, &mut scb, &config, &mut phase, 0, &mut first,
    );
    assert_eq!(step, Step::Ask(Field::ClklessWakeupStat));
    assert_eq!(phase, SleepPhase::WakeupMasked);
    assert_eq!(first.len(), 6);
    assert_eq!(device.run(&first), 6);
    assert_eq!(device.read(Field::FrzWdog), 1);
    assert_eq!(device.read(Field::IrqPending), 0);
    assert_eq!(device.read(Field::DebuggerEnable), 0);
    assert_eq!(device.read(Field::HibernWkupMask), 0b0_0100);

    let stat = device.read(Field::ClklessWakeupStat);
    assert_eq!(stat, 0);
    let mut second = Script::new();
    let step = crg_aon.init_sleep(
        &mut nvic, &mut crg_top, &mut wdog, &mut scb, &config, &mut phase, stat, &mut second,
    );
    assert_eq!(step, Step::Ask(Field::BoostSelected));
    assert_eq!(phase, SleepPhase::HibernationConfigured);
    assert_eq!(second.len(), 12);
    assert_eq!(second.get(1), Some(Instr::WaitSet(Field::ClklessWakeupStat)));
    device.latch(Field::ClklessWakeupStat, 1);
    assert_eq!(device.run(&second), 12);
    assert_eq!(device.read(Field::HibernWkupPolarity), 1);
    assert_eq!(device.read(Field::HibernationEnable), 1);
    assert_eq!(device.read(Field::Sleepdeep), 1);
    assert_eq!(device.read(Field::Ram1PwrCtrl), 0);
    assert_eq!(device.read(Field::Ram2PwrCtrl), 1);
    assert_eq!(device.read(Field::Ram3PwrCtrl), 1);
    assert_eq!(device.read(Field::RemapAdr0), 2);
    assert_eq!(device.read(Field::PadLatchEn), 1);
    assert_eq!(device.read(Field::RamxLpmx), 7);
    assert_eq!(device.read(Field::LdoRetTrim), 0x0d);
    assert_eq!(device.read(Field::ForceRunningCompDis), 1);

    device.latch(Field::BoostSelected, 1);
    let mut third = Script::new();
    let step = crg_aon.init_sleep(
        &mut nvic,
        &mut crg_top,
        &mut wdog,
        &mut scb,
        &config,
        &mut phase,
        device.read(Field::BoostSelected),
        &mut third,
    );
    assert_eq!(step, Step::Done(()));
    assert_eq!(phase, SleepPhase::Asleep);
    assert_eq!(device.run(&third), third.len());
    assert_eq!(device.read(Field::VbatHlConnectResCtrl), 2);
    assert_eq!(device.read(Field::ChargeVbatDisable), 1);
    assert_eq!(device.read(Field::PorVbatHighRstMask), 1);
    assert_eq!(device.read(Field::PorVbatLowRstMask), 0);
    assert_eq!(device.read(Field::AnaSpare), 2);
    assert_eq!(third.get(third.len() - 1), Some(Instr::Cpu(CpuOp::WaitForInterrupt)));

    let mut after = Script::new();
    let step = crg_aon.init_sleep(
        &mut nvic, &mut crg_top, &mut wdog, &mut scb, &config, &mut phase, 0, &mut after,
    );
    assert_eq!(step, Step::Done(()));
    assert_eq!(after.len(), 0);
}

#[test]
fn the_second_call_stalls_until_the_wakeup_line_settles() {
    let settings = sleep_settings(0b1, (false, false, false));
    let mut script = Script::new();
    let rest = SleepPhase::WakeupMasked.resume(&settings, 0, &mut script);
    assert_eq!(rest, SleepPhase::HibernationConfigured);
    let mut device = Device::new();
    assert_eq!(device.run(&script), 1);
    assert_eq!(device.read(Field::HibernWkupPolarity), 1);
    assert_eq!(device.read(Field::HibernationEnable), 0);
}

#[test]
fn init_sleep_in_buck_mode_writes_encoding_3() {
    let peripherals = Slot::new().take().unwrap();
    let mut crg_aon = peripherals.CRG_AON.constrain();
    let mut nvic = peripherals.NVIC.constrain();
    let mut crg_top = peripherals.CRG_TOP.constrain();
    let mut wdog = peripherals.SYS_WDOG.constrain();
    let mut scb = peripherals.SCB;
    let config = SleepConfig::new(0b1, false, false, false, RemapAddr::ToRom, false);
    let mut phase = SleepPhase::HibernationConfigured;
    let mut script = Script::new();
    let step = crg_aon.init_sleep(
        &mut nvic, &mut crg_top, &mut wdog, &mut scb, &config, &mut phase, 0, &mut script,
    );
    assert_eq!(step, Step::Done(()));
    let mut device = Device::new();
    assert_eq!(device.run(&script), script.len());
    assert_eq!(device.read(Field::VbatHlConnectResCtrl), 3);
    assert_eq!(device.read(Field::ChargeVbatDisable), 0);
}

#[test]
fn the_sequence_stalls_while_the_debugger_is_up() {
    let settings = sleep_settings(1, (false, false, false));
    let mut script = Script::new();
    let rest = SleepPhase::Running.resume(&settings, 0, &mut script);
    assert_eq!(rest, SleepPhase::WakeupMasked);
    let mut device = Device::new();
    device.latch(Field::DbgIsUp, 1);
    assert_eq!(device.run(&script), 3);
    assert_eq!(script.get(3), Some(Instr::WaitClear(Field::DbgIsUp)));
    assert_eq!(device.read(Field::DebuggerEnable), 0);
    assert_eq!(device.read(Field::HibernWkupMask), 0);
}

#[test]
fn sleep_controller_runs_the_same_sequence() {
    let peripherals = Slot::new().take().unwrap();
    let mut controller = SleepController::new(
        peripherals.CRG_AON,
        0b1_1111,
        false,
        true,
        false,
        da14531_hal::sleep::RemapAddr::ToOtp,
        false,
    );
    let mut wdg = SystemWatchdog::new(peripherals.SYS_WDOG);
    let mut interrupts = InterruptController::new(peripherals.NVIC);
    let mut scb = peripherals.SCB;
    let mut phase = SleepPhase::Running;
    let mut script = Script::new();
    let step = controller.enter_hibernation(
        &mut wdg, &mut interrupts, &mut scb, &mut phase, 0, &mut script,
    );
    assert_eq!(step, Step::Ask(Field::ClklessWakeupStat));
    let step = controller.enter_hibernation(
        &mut wdg, &mut interrupts, &mut scb, &mut phase, 1, &mut script,
    );
    assert_eq!(step, Step::Ask(Field::BoostSelected));
    let step = controller.enter_hibernation(
        &mut wdg, &mut interrupts, &mut scb, &mut phase, 0, &mut script,
    );
    assert_eq!(step, Step::Done(()));
    assert_eq!(phase, SleepPhase::Asleep);

    let settings = SleepSettings {
        pin_mask: 0b1_1111,
        ram1_on: false,
        ram2_on: true,
        ram3_on: false,
        remap_addr: RemapAddr::ToOtp,
        pad_latch_en: false,
    };
    let mut expected = Script::new();
    let mut at = SleepPhase::Running;
    let replies = [0, 0, 0, 1, 0, 0, 0, 0, 0];
    for reply in replies {
        at = at.advance(&settings, reply, &mut expected);
    }
    assert_eq!(at, SleepPhase::Asleep);
    assert_eq!(script.into_vec(), expected.into_vec());
}

#[test]
fn pad_latch_is_overwritten() {
    let mut crg_aon = Slot::new().take().unwrap().CRG_AON.constrain();
    let mut script = Script::new();
    crg_aon.set_pad_latch_en(false, &mut script);
    crg_aon.set_pad_latch_en(true, &mut script);
    assert_eq!(
        script.into_vec(),
        vec![
            Instr::Put {
                access: Access::Write,
                field: Field::PadLatchEn,
                update: Update::Store(0),
                masked: false,
            },
            Instr::Put {
                access: Access::Write,
                field: Field::PadLatchEn,
                update: Update::Store(1),
                masked: false,
            },
        ]
    );
}

#[test]
fn remap_target_and_retention_can_be_checked() {
    let mut settings = sleep_settings(1, (true, false, false));
    assert!(settings.remap_retained());
    settings.ram1_on = false;
    assert!(!settings.remap_retained());
    settings.remap_addr = RemapAddr::ToRam3;
    assert!(!settings.remap_retained());
    settings.ram3_on = true;
    assert!(settings.remap_retained());
    settings.remap_addr = RemapAddr::ToRom;
    settings.ram3_on = false;
    assert!(settings.remap_retained());
    settings.remap_addr = RemapAddr::ToOtp;
    assert!(settings.remap_retained());
}
