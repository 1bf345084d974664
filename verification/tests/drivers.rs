use da14531_hal::crg_top::CrgTopExt;
use da14531_hal::clock::ClockController;
use da14531_hal::device::Device;
use da14531_hal::interrupt::{AlreadyRegistered, HandlerSlot, InterruptController};
use da14531_hal::nvic::{Interrupt, Irq, NvicExt};
use da14531_hal::otpc::config::{Mode, OtpcConfig};
use da14531_hal::otpc::OtpcExt;
use da14531_hal::pac::{Slot, TIMER0};
use da14531_hal::regs::{Access, Field, Instr, Update};
use da14531_hal::script::Script;
use da14531_hal::sys_wdog::SysWdogExt;
use da14531_hal::timer::{
    BaseClockDiv, ClockSel, PwmMode, Timer0, Timer2PwmChannel, TimerClockDiv,
    LOW_POWER_CLOCK_FREQ, SYSTEM_CLOCK_FREQ,
};
use da14531_hal::wakeup::WakeupController;
use da14531_hal::watchdog::SystemWatchdog;
use da14531_hal::wkup::{acknowledge_interrupt, Polarity, Wkup, WkupExt};

fn drv_modify(field: Field, value: u32) -> Instr {
    Instr::Put { access: Access::Modify, field, update: Update::Store(value), masked: false }
}

fn drv_overwrite(field: Field, value: u32) -> Instr {
    Instr::Put { access: Access::Write, field, update: Update::Store(value), masked: false }
}

fn drv_and(field: Field, value: u32) -> Instr {
    Instr::And { field, update: Update::Store(value) }
}

#[test]
fn tokens_are_taken_once() {
    let mut slot = Slot::new();
    assert!(slot.take().is_some());
    assert!(slot.take().is_none());
    assert!(slot.take().is_none());
}

#[test]
fn a_handler_is_registered_once() {
    let mut slot: HandlerSlot<fn() -> u8> = HandlerSlot::new();
    assert!(slot.handler().is_none());
    fn first() -> u8 {
        1
    }
    fn second() -> u8 {
        2
    }
    assert_eq!(slot.register(first), Ok(()));
    assert_eq!(slot.register(second), Err(AlreadyRegistered));
    assert_eq!((slot.handler().unwrap())(), 1);
}

#[test]
fn drivers_register_handlers_through_the_slot() {
    let peripherals = Slot::new().take().unwrap();
    let timer = Timer0::new(peripherals.TIMER0);
    let mut wakeup = WakeupController::new(peripherals.WKUP);
    let mut timer_slot: HandlerSlot<u32> = HandlerSlot::new();
    assert_eq!(timer.register_handler(&mut timer_slot, 7), Ok(()));
    assert_eq!(timer.register_handler(&mut timer_slot, 8), Err(AlreadyRegistered));
    assert_eq!(timer_slot.handler(), Some(&7));
    let mut wakeup_slot: HandlerSlot<u32> = HandlerSlot::new();
    assert_eq!(wakeup.register_irq_handler(&mut wakeup_slot, 1), Ok(()));
    assert_eq!(wakeup.register_irq_handler(&mut wakeup_slot, 2), Err(AlreadyRegistered));
    assert_eq!(wakeup_slot.handler(), Some(&1));
}

#[test]
fn vector_numbers() {
    assert_eq!(Irq::I2c.number(), 4);
    assert_eq!(Irq::Adc.number(), 6);
    assert_eq!(Irq::Gpio0.number(), 10);
    assert_eq!(Irq::Gpio1.number(), 11);
    assert_eq!(Irq::Gpio2.number(), 12);
    assert_eq!(Irq::Gpio3.number(), 13);
    assert_eq!(Irq::Gpio4.number(), 14);
    assert_eq!(Irq::SwTim0.number(), 15);
    assert_eq!(Irq::WakupQuadec.number(), 16);
    assert_eq!(Irq::WakupQuadec.mask(), 1 << 16);
    assert_eq!(Irq::Adc.mask(), 0x40);
}

#[test]
fn interrupt_controller_accesses() {
    let mut nvic = Slot::new().take().unwrap().NVIC.constrain();
    let mut script = Script::new();
    nvic.set_priority(Irq::SwTim0, 2, &mut script);
    nvic.enable_irq(Irq::SwTim0, &mut script);
    nvic.disable_irq(Irq::Gpio3, &mut script);
    nvic.clear_pending_interrupts(&mut script);
    assert_eq!(
        script.into_vec(),
        vec![
            drv_modify(Field::IrqPriority(15), 2),
            drv_overwrite(Field::NvicIser, 1 << 15),
            drv_overwrite(Field::NvicIcer, 1 << 13),
            drv_overwrite(Field::NvicIcpr, 0xFFFF_FFFF),
        ]
    );
}

#[test]
fn enabling_and_disabling_a_vector_on_the_device() {
    let mut controller = InterruptController::new(Slot::new().take().unwrap().NVIC);
    let mut device = Device::new();
    let mut script = Script::new();
    controller.set_priority(Irq::WakupQuadec, 3, &mut script);
    controller.enable_irq(Irq::WakupQuadec, &mut script);
    controller.enable_irq(Irq::Adc, &mut script);
    device.run(&script);
    assert_eq!(device.read(Field::IrqEnabled), (1 << 16) | (1 << 6));
    assert_eq!(device.read(Field::IrqPriority(16)), 3);
    assert_eq!(device.read(Field::IrqPriority(6)), 0);
    let mut off = Script::new();
    controller.disable_irq(Irq::WakupQuadec, &mut off);
    device.latch(Field::IrqPending, 0xABCD);
    controller.clear_pending_interrupts(&mut off);
    device.run(&off);
    assert_eq!(device.read(Field::IrqEnabled), 1 << 6);
    assert_eq!(device.read(Field::IrqPending), 0);
}

#[test]
fn timer_0_raises_the_software_timer_vector() {
    let mut nvic = Slot::new().take().unwrap().NVIC.constrain();
    let mut script = Script::new();
    <TIMER0 as Interrupt>::set_priority(&mut nvic, 1, &mut script);
    <TIMER0 as Interrupt>::enable(&mut script);
    <TIMER0 as Interrupt>::disable(&mut script);
    assert_eq!(
        script.into_vec(),
        vec![
            drv_modify(Field::IrqPriority(15), 1),
            drv_overwrite(Field::NvicIser, 1 << 15),
            drv_overwrite(Field::NvicIcer, 1 << 15),
        ]
    );
}

#[test]
fn watchdog_start_feeds_then_arms_the_reset() {
    let mut wdog = Slot::new().take().unwrap().SYS_WDOG.constrain();
    let mut script = Script::new();
    wdog.feed(&mut script);
    wdog.start(0x20, &mut script);
    wdog.feed(&mut script);
    wdog.freeze(&mut script);
    assert_eq!(
        script.into_vec(),
        vec![
            drv_modify(Field::WdogVal, 0xC8),
            drv_modify(Field::WdogVal, 0x20),
            drv_overwrite(Field::NmiRst, 1),
            drv_modify(Field::WdogVal, 0x20),
            drv_modify(Field::FrzWdog, 1),
        ]
    );
    assert_eq!(da14531_hal::sys_wdog::WATCHDOG_DEFAULT_PERIOD, 0xC8);
}

#[test]
fn system_watchdog_overwrites_its_counter() {
    let mut wdog = SystemWatchdog::new(Slot::new().take().unwrap().SYS_WDOG);
    let mut script = Script::new();
    wdog.feed(&mut script);
    wdog.start(0x7F, &mut script);
    assert_eq!(
        script.into_vec(),
        vec![
            drv_overwrite(Field::WdogVal, 0xC8),
            drv_overwrite(Field::WdogVal, 0x7F),
            drv_overwrite(Field::NmiRst, 1),
        ]
    );
    assert_eq!(da14531_hal::watchdog::WATCHDOG_DEFAULT_PERIOD, 0xC8);
}

#[test]
fn timer_clock_and_run_accesses() {
    let mut timer = Timer0::new(Slot::new().take().unwrap().TIMER0);
    let mut script = Script::new();
    timer.enable_clock(&mut script);
    timer.set_clock_div(BaseClockDiv::Div8, &mut script);
    timer.start(&mut script);
    timer.stop(&mut script);
    timer.start_triple_pwm(&mut script);
    timer.stop_triple_pwm(&mut script);
    assert_eq!(
        script.into_vec(),
        vec![
            drv_modify(Field::TmrEnable, 1),
            drv_modify(Field::TmrDiv, 3),
            drv_modify(Field::Tim0Ctrl, 1),
            drv_modify(Field::Tim0Ctrl, 0),
            drv_modify(Field::TriplePwmEnable, 1),
            drv_modify(Field::TriplePwmEnable, 0),
        ]
    );
    assert_eq!(BaseClockDiv::Div1.code(), 0);
    assert_eq!(BaseClockDiv::Div2.code(), 1);
    assert_eq!(BaseClockDiv::Div4.code(), 2);
}

#[test]
fn timer_init_configures_then_enables_the_vector() {
    let peripherals = Slot::new().take().unwrap();
    let mut timer = Timer0::new(peripherals.TIMER0);
    let mut interrupts = InterruptController::new(peripherals.NVIC);
    let mut script = Script::new();
    timer.init(
        &mut interrupts,
        ClockSel::SystemClock,
        PwmMode::High,
        TimerClockDiv::Off,
        &mut script,
    );
    timer.init(
        &mut interrupts,
        ClockSel::LowPowerClock,
        PwmMode::SystemClock,
        TimerClockDiv::Div10,
        &mut script,
    );
    assert_eq!(
        script.into_vec(),
        vec![
            drv_modify(Field::Tim0ClkSel, 1),
            drv_and(Field::PwmMode, 0),
            drv_and(Field::Tim0ClkDiv, 1),
            drv_modify(Field::IrqPriority(15), 2),
            drv_overwrite(Field::NvicIser, 1 << 15),
            drv_modify(Field::Tim0ClkSel, 0),
            drv_and(Field::PwmMode, 1),
            drv_and(Field::Tim0ClkDiv, 0),
            drv_modify(Field::IrqPriority(15), 2),
            drv_overwrite(Field::NvicIser, 1 << 15),
        ]
    );
}

#[test]
fn timer_pwm_counters() {
    let mut timer = Timer0::new(Slot::new().take().unwrap().TIMER0);
    let mut script = Script::new();
    timer.set_pwm(100, 200, 300, &mut script);
    timer.set_pwm_on(1, &mut script);
    timer.set_pwm_high(2, &mut script);
    timer.set_pwm_low(0xFFFF, &mut script);
    assert_eq!(
        script.into_vec(),
        vec![
            drv_modify(Field::Tim0On, 100),
            drv_modify(Field::Tim0M, 200),
            drv_modify(Field::Tim0N, 300),
            drv_modify(Field::Tim0On, 1),
            drv_modify(Field::Tim0M, 2),
            drv_modify(Field::Tim0N, 0xFFFF),
        ]
    );
}

#[test]
fn triple_pwm_dividers() {
    assert_eq!(SYSTEM_CLOCK_FREQ, 16_000_000);
    assert_eq!(LOW_POWER_CLOCK_FREQ, 32_000);
    assert_eq!(ClockSel::SystemClock.frequency(), 16_000_000);
    assert_eq!(ClockSel::LowPowerClock.frequency(), 32_000);
    let cases = [
        (ClockSel::SystemClock, 1_000u32, 1u32, 15_999u32),
        (ClockSel::LowPowerClock, 1_000, 0, 31),
        (ClockSel::SystemClock, 16_000_000, 1, 0),
        (ClockSel::LowPowerClock, 32_000, 0, 0),
        (ClockSel::SystemClock, 245, 1, 65_305),
        (ClockSel::SystemClock, 100, 1, 28_927),
        (ClockSel::SystemClock, 3, 1, 24_916),
        (ClockSel::LowPowerClock, 1, 0, 31_999),
    ];
    for (clk_sel, freq_hz, sel, divider) in cases {
        let mut timer = Timer0::new(Slot::new().take().unwrap().TIMER0);
        let mut script = Script::new();
        timer.init_triple_pwm(clk_sel, freq_hz, &mut script);
        assert_eq!(
            script.into_vec(),
            vec![drv_modify(Field::TriplePwmClkSel, sel), drv_modify(Field::PwmFreq, divider)]
        );
    }
}

#[test]
fn duty_cycle_of_each_channel() {
    let mut timer = Timer0::new(Slot::new().take().unwrap().TIMER0);
    let channels = [
        (Timer2PwmChannel::Pwm2, 2u8),
        (Timer2PwmChannel::Pwm3, 3),
        (Timer2PwmChannel::Pwm4, 4),
        (Timer2PwmChannel::Pwm5, 5),
        (Timer2PwmChannel::Pwm6, 6),
        (Timer2PwmChannel::Pwm7, 7),
    ];
    let mut device = Device::new();
    for (channel, number) in channels {
        assert_eq!(channel.number(), number);
        let mut script = Script::new();
        timer.set_triple_pwm_duty_cycle(channel, 10 * number as u16, 1000, &mut script);
        device.run(&script);
        assert_eq!(
            script.into_vec(),
            vec![
                drv_overwrite(Field::StartCycle(number), 10 * number as u32),
                drv_overwrite(Field::EndCycle(number), 1000),
            ]
        );
    }
    assert_eq!(device.read(Field::StartCycle(2)), 20);
    assert_eq!(device.read(Field::StartCycle(7)), 70);
    assert_eq!(device.read(Field::EndCycle(4)), 1000);
}

#[test]
fn wakeup_interrupt_is_armed_in_order() {
    let peripherals = Slot::new().take().unwrap();
    let mut wkup = peripherals.WKUP.constrain();
    let mut crg_top = peripherals.CRG_TOP.constrain();
    let mut nvic = peripherals.NVIC.constrain();
    let mut script = Script::new();
    wkup.enable_irq(&mut crg_top, &mut nvic, 3, Polarity::High, 5, 0xFF, &mut script);
    assert_eq!(
        script.into_vec(),
        vec![
            Instr::Put {
                access: Access::Modify,
                field: Field::WakeupctEnable,
                update: Update::Store(1),
                masked: true,
            },
            drv_modify(Field::WkupCntrRst, 1),
            drv_modify(Field::WkupDebValue, 0x3F),
            Instr::Put {
                access: Access::Modify,
                field: Field::WkupPolGpio,
                update: Update::Raise(1 << 3),
                masked: false,
            },
            drv_modify(Field::WkupCompare, 4),
            drv_modify(Field::WkupEnableIrq, 1),
            Instr::Put {
                access: Access::Modify,
                field: Field::WkupSelectGpio,
                update: Update::Raise(1 << 3),
                masked: false,
            },
            drv_modify(Field::IrqPriority(16), 2),
            drv_overwrite(Field::NvicIser, 1 << 16),
        ]
    );
}

#[test]
fn wakeup_polarity_low_clears_the_pin_bit() {
    let peripherals = Slot::new().take().unwrap();
    let mut wakeup = WakeupController::new(peripherals.WKUP);
    let mut clocks = ClockController::new(peripherals.CRG_TOP);
    let mut interrupts = InterruptController::new(peripherals.NVIC);
    let mut device = Device::new();
    device.latch(Field::WkupPolGpio, 0xFFF);
    device.latch(Field::WkupSelectGpio, 0b1);
    let mut script = Script::new();
    wakeup.enable_irq(
        &mut clocks,
        &mut interrupts,
        11,
        da14531_hal::wakeup::Polarity::Low,
        1,
        0x12,
        &mut script,
    );
    assert_eq!(script.len(), 9);
    assert_eq!(device.run(&script), 9);
    assert_eq!(device.read(Field::WkupPolGpio), 0x7FF);
    assert_eq!(device.read(Field::WkupSelectGpio), 0x801);
    assert_eq!(device.read(Field::WkupCompare), 0);
    assert_eq!(device.read(Field::WkupDebValue), 0x12);
    assert_eq!(device.read(Field::WkupEnableIrq), 1);
    assert_eq!(device.read(Field::WakeupctEnable), 1);
    assert_eq!(device.read(Field::IrqEnabled), 1 << 16);
}

#[test]
fn wakeup_handler_acknowledges_and_disarms() {
    let mut script = Script::new();
    acknowledge_interrupt(&mut script);
    assert_eq!(
        script.into_vec(),
        vec![drv_modify(Field::WkupIrqStatus, 1), drv_modify(Field::WkupEnableIrq, 0)]
    );
    let _wkup = Wkup::new(Slot::new().take().unwrap().WKUP);
}

#[test]
fn otp_controller_enable_and_disable() {
    let peripherals = Slot::new().take().unwrap();
    let otpc = peripherals.OTPC.constrain();
    let mut crg_top = peripherals.CRG_TOP.constrain();
    let mut script = Script::new();
    otpc.enable(&mut crg_top, OtpcConfig::new(Mode::Read), &mut script);
    otpc.disable(&mut crg_top, &mut script);
    let gate = |on| Instr::Put {
        access: Access::Modify,
        field: Field::OtpEnable,
        update: Update::Store(on),
        masked: true,
    };
    assert_eq!(
        script.into_vec(),
        vec![
            gate(1),
            drv_overwrite(Field::OtpcModeMode, 2),
            drv_overwrite(Field::OtpcModeMode, 0),
            gate(0),
        ]
    );
}

#[test]
fn otp_modes_and_default_configuration() {
    assert_eq!(Mode::default(), Mode::DeepStandby);
    assert_eq!(OtpcConfig::default().mode(), Mode::DeepStandby);
    assert_eq!(OtpcConfig::new(Mode::DmaRead).mode(), Mode::DmaRead);
    let codes = [
        (Mode::DeepStandby, 0u8),
        (Mode::Standby, 1),
        (Mode::Read, 2),
        (Mode::Program, 3),
        (Mode::ProgramVerify, 4),
        (Mode::InitialRead, 5),
        (Mode::DmaRead, 6),
    ];
    for (mode, code) in codes {
        assert_eq!(mode.code(), code);
    }
}
