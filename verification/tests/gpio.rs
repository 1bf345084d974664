use da14531_hal::device::Device;
use da14531_hal::gpio::p0::Parts;
use da14531_hal::gpio::{
    AfAdc, AfI2cScl, Disconnected, Floating, Input, Output, Pin, PinMode, PinState, PullDown,
    PullUp, PIN_COUNT,
};
use da14531_hal::pac::Slot;
use da14531_hal::regs::{Access, Field, Instr, Reg, Update};
use da14531_hal::script::Script;

fn gpio_overwrite(field: Field, value: u32) -> Instr {
    Instr::Put { access: Access::Write, field, update: Update::Store(value), masked: false }
}

fn gpio_and(field: Field, value: u32) -> Instr {
    Instr::And { field, update: Update::Store(value) }
}

fn gpio_parts() -> Parts {
    Parts::new(Slot::new().take().unwrap().GPIO)
}

fn gpio_run(script: Script) -> Device {
    let mut device = Device::new();
    assert_eq!(device.run(&script), script.len());
    device
}

#[test]
fn mode_bits_of_each_mode() {
    assert_eq!((Disconnected::pupd(), Disconnected::pid()), (0b10, 0));
    assert_eq!((<Input<Floating>>::pupd(), <Input<Floating>>::pid()), (0b00, 0));
    assert_eq!((<Input<PullUp>>::pupd(), <Input<PullUp>>::pid()), (0b01, 0));
    assert_eq!((<Input<PullDown>>::pupd(), <Input<PullDown>>::pid()), (0b10, 0));
    assert_eq!((Output::pupd(), Output::pid()), (0b11, 0));
    assert_eq!((AfI2cScl::pupd(), AfI2cScl::pid()), (0b00, 9));
    assert_eq!((AfAdc::pupd(), AfAdc::pid()), (0b00, 15));
    assert_eq!(PIN_COUNT, 12);
}

#[test]
fn floating_input_is_one_write_of_both_fields() {
    let mut script = Script::new();
    let _pin = gpio_parts().p0_05.into_floating_input(&mut script);
    assert_eq!(
        script.into_vec(),
        vec![gpio_overwrite(Field::Pupd(5), 0b00), gpio_and(Field::Pid(5), 0)]
    );
}

#[test]
fn pull_up_and_pull_down_program_their_bits() {
    let parts = gpio_parts();
    let mut script = Script::new();
    let _up = parts.p0_01.into_pullup_input(&mut script);
    let _down = parts.p0_02.into_pulldown_input(&mut script);
    let device = gpio_run(script);
    assert_eq!(device.read(Field::Pupd(1)), 0b01);
    assert_eq!(device.read(Field::Pupd(2)), 0b10);
    assert_eq!(device.read(Field::Pid(1)), 0);
    assert_eq!(device.read(Field::Pid(2)), 0);
}

#[test]
fn generic_pin_transitions_agree_with_typed_ones() {
    let parts = gpio_parts();
    let mut typed = Script::new();
    let _a = parts.p0_07.into_pullup_input(&mut typed);
    let mut generic = Script::new();
    let pin: Pin<Disconnected> = parts.p0_08.degrade();
    let pin = pin.into_pull_up_input(&mut generic);
    assert_eq!(pin.pin(), 8);
    assert_eq!(
        typed.into_vec(),
        vec![gpio_overwrite(Field::Pupd(7), 0b01), gpio_and(Field::Pid(7), 0)]
    );
    assert_eq!(
        generic.into_vec(),
        vec![gpio_overwrite(Field::Pupd(8), 0b01), gpio_and(Field::Pid(8), 0)]
    );
}

#[test]
fn output_sets_the_level_before_the_mode() {
    let parts = gpio_parts();
    let mut low = Script::new();
    let _a = parts.p0_00.into_output(PinState::Low, &mut low);
    assert_eq!(
        low.into_vec(),
        vec![
            gpio_overwrite(Field::P0Reset, 1),
            gpio_overwrite(Field::Pupd(0), 0b11),
            gpio_and(Field::Pid(0), 0),
        ]
    );
    let mut high = Script::new();
    let _b = parts.p0_11.degrade().into_output(PinState::High, &mut high);
    assert_eq!(
        high.into_vec(),
        vec![
            gpio_overwrite(Field::P0Set, 1 << 11),
            gpio_overwrite(Field::Pupd(11), 0b11),
            gpio_and(Field::Pid(11), 0),
        ]
    );
}

#[test]
fn alternate_function_programs_selector_and_pull() {
    let parts = gpio_parts();
    let mut script = Script::new();
    let _scl = parts.p0_06.into_alternate::<9, 0b00>(&mut script);
    let _pwm = parts.p0_09.degrade().into_alternate::<23, 0b11>(&mut script);
    assert_eq!(
        script.into_vec(),
        vec![
            gpio_overwrite(Field::Pupd(6), 0b00),
            gpio_and(Field::Pid(6), 9),
            gpio_overwrite(Field::Pupd(9), 0b11),
            gpio_and(Field::Pid(9), 23),
        ]
    );
}

#[test]
fn alternate_with_state_sets_the_level_first() {
    let mut script = Script::new();
    let _pin = gpio_parts().p0_04.into_alternate_with_state::<27>(PinState::High, &mut script);
    assert_eq!(
        script.into_vec(),
        vec![
            gpio_overwrite(Field::P0Set, 1 << 4),
            gpio_overwrite(Field::Pupd(4), 0b11),
            gpio_and(Field::Pid(4), 27),
        ]
    );
}

#[test]
fn disconnect_resets_the_mode_register() {
    let parts = gpio_parts();
    let mut script = Script::new();
    let pin = parts.p0_03.into_output(PinState::Low, &mut script);
    let pin = pin.into_disconnected(&mut script);
    assert_eq!(script.get(3), Some(Instr::Reset(Reg::P0Mode(3))));
    assert_eq!(pin.degrade().pin_mode(), Reg::P0Mode(3));
    let device = gpio_run(script);
    assert_eq!(device.read(Field::Pupd(3)), Disconnected::pupd() as u32);
    assert_eq!(device.read(Field::Pid(3)), Disconnected::pid() as u32);
}

#[test]
fn round_trip_restores_the_register_bits() {
    let parts = gpio_parts();
    let mut script = Script::new();
    let pin = parts.p0_02.into_pullup_input(&mut script);
    let before = gpio_run(script);
    let bits = (before.read(Field::Pupd(2)), before.read(Field::Pid(2)));

    let parts = gpio_parts();
    let mut script = Script::new();
    let again = parts.p0_02.into_pullup_input(&mut script);
    let there = again.into_alternate::<10, 0b00>(&mut script);
    let back = there.into_pullup_input(&mut script);
    let after = gpio_run(script);
    assert_eq!((after.read(Field::Pupd(2)), after.read(Field::Pid(2))), bits);
    assert_eq!(bits, (0b01, 0));
    assert_eq!(pin.degrade().pin(), back.degrade().pin());
}

#[test]
fn transitions_leave_other_pins_alone() {
    let parts = gpio_parts();
    let mut script = Script::new();
    let _a = parts.p0_01.into_output(PinState::High, &mut script);
    let _b = parts.p0_02.into_floating_input(&mut script);
    let device = gpio_run(script);
    assert_eq!(device.read(Field::Pupd(1)), 0b11);
    assert_eq!(device.read(Field::Pupd(2)), 0b00);
    assert_eq!(device.read(Field::Pupd(3)), 0b10);
    assert_eq!(device.read(Field::P0Data), 0b10);
}

#[test]
fn into_mode_writes_only_when_the_bits_differ() {
    let parts = gpio_parts();
    let mut script = Script::new();
    let pin: Pin<Disconnected> = parts.p0_10.degrade();
    let pin: Pin<Input<PullDown>> = pin.into_mode(&mut script);
    assert_eq!(script.len(), 0);
    let pin: Pin<Output> = pin.into_mode(&mut script);
    assert_eq!(pin.pin(), 10);
    assert_eq!(
        script.into_vec(),
        vec![gpio_overwrite(Field::Pupd(10), 0b11), gpio_and(Field::Pid(10), 0)]
    );
}

#[test]
fn with_input_restores_the_output_mode() {
    let parts = gpio_parts();
    let mut script = Script::new();
    let mut pin = parts.p0_05.into_output(PinState::High, &mut script).degrade();
    let seen = pin.with_input(&mut script, |input: &mut Pin<Input<Floating>>, script: &mut Script| {
        script.touch(Field::P0Data);
        input.pin()
    });
    assert_eq!(seen, 5);
    assert_eq!(
        script.get(script.len() - 2),
        Some(gpio_overwrite(Field::Pupd(5), 0b11))
    );
    assert_eq!(script.get(script.len() - 1), Some(gpio_and(Field::Pid(5), 0)));
    assert_eq!(script.get(3), Some(gpio_overwrite(Field::Pupd(5), 0b00)));
    assert_eq!(script.get(5), Some(Instr::Touch(Field::P0Data)));
    let device = gpio_run(script);
    assert_eq!(device.read(Field::Pupd(5)), Output::pupd() as u32);
    assert_eq!(device.read(Field::Pid(5)), Output::pid() as u32);
}

#[test]
fn with_mode_restores_even_if_the_callback_reprograms_the_pin() {
    let parts = gpio_parts();
    let mut script = Script::new();
    let mut pin = parts.p0_06.into_pullup_input(&mut script).degrade();
    pin.with_analog(&mut script, |_analog: &mut Pin<AfAdc>, script: &mut Script| {
        script.reset(Reg::P0Mode(6));
    });
    let device = gpio_run(script);
    assert_eq!(device.read(Field::Pupd(6)), 0b01);
    assert_eq!(device.read(Field::Pid(6)), 0);
}

#[test]
fn with_push_pull_output_in_state_drives_the_level_first() {
    let parts = gpio_parts();
    let mut script = Script::new();
    let mut pin = parts.p0_07.into_floating_input(&mut script).degrade();
    let start = script.len();
    pin.with_push_pull_output_in_state(
        PinState::High,
        &mut script,
        |output: &mut Pin<Output>, script: &mut Script| output.set_low(script),
    );
    assert_eq!(script.get(start), Some(gpio_overwrite(Field::P0Set, 1 << 7)));
    assert_eq!(script.get(start + 1), Some(gpio_overwrite(Field::Pupd(7), 0b11)));
    assert_eq!(script.get(start + 3), Some(gpio_overwrite(Field::P0Reset, 1 << 7)));
    let device = gpio_run(script);
    assert_eq!(device.read(Field::Pupd(7)), 0b00);
    assert_eq!(device.read(Field::P0Data), 0);
}

#[test]
fn with_push_pull_output_keeps_the_data_register() {
    let parts = gpio_parts();
    let mut script = Script::new();
    let mut pin = parts.p0_08.into_pulldown_input(&mut script).degrade();
    let id = pin.with_push_pull_output(&mut script, |output: &mut Pin<Output>, _s: &mut Script| {
        output.pin()
    });
    assert_eq!(id, 8);
    let device = gpio_run(script);
    assert_eq!(device.read(Field::Pupd(8)), 0b10);
}

#[test]
fn input_pins_read_their_bit() {
    let parts = gpio_parts();
    let mut script = Script::new();
    let typed = parts.p0_04.into_floating_input(&mut script);
    assert!(typed.is_high(0b1_0000));
    assert!(typed.is_low(0b0_1111));
    let generic = typed.degrade();
    assert!(generic.is_high(0xFFF));
    assert!(generic.is_low(0xFEF));
    assert!(!generic.is_high(0));
}

#[test]
fn output_pins_drive_and_read_back() {
    let parts = gpio_parts();
    let mut script = Script::new();
    let mut pin = parts.p0_09.into_output(PinState::Low, &mut script);
    let mut device = Device::new();
    assert_eq!(device.run(&script), 3);
    assert!(pin.is_set_low(device.read(Field::P0Data)));
    let mut drive = Script::new();
    pin.set_high(&mut drive);
    assert_eq!(device.run(&drive), 1);
    assert!(pin.is_set_high(device.read(Field::P0Data)));
    assert_eq!(device.read(Field::P0Data), 1 << 9);
    let mut release = Script::new();
    pin.set_low(&mut release);
    assert_eq!(release.get(0), Some(gpio_overwrite(Field::P0Reset, 1 << 9)));
    assert_eq!(device.run(&release), 1);
    assert!(pin.is_set_low(device.read(Field::P0Data)));
}

#[test]
fn driving_one_pin_leaves_the_others() {
    let parts = gpio_parts();
    let mut script = Script::new();
    let mut a = parts.p0_00.into_output(PinState::High, &mut script).degrade();
    let mut b = parts.p0_01.into_output(PinState::High, &mut script).degrade();
    a.set_low(&mut script);
    let device = gpio_run(script);
    assert_eq!(device.read(Field::P0Data), 0b10);
    assert!(a.is_set_low(device.read(Field::P0Data)));
    assert!(b.is_set_high(device.read(Field::P0Data)));
    let mut more = Script::new();
    b.set_low(&mut more);
    assert_eq!(more.len(), 1);
}

#[test]
fn erased_pin_state_and_toggle() {
    let parts = gpio_parts();
    let mut script = Script::new();
    let mut pin = parts.p0_02.into_output(PinState::Low, &mut script).erase_number();
    assert_eq!(pin.pin_id(), 2);
    assert_eq!(pin.port_id(), 0);
    assert_eq!(pin.get_state(0b100), PinState::High);
    assert_eq!(pin.get_state(0b011), PinState::Low);
    assert!(pin.is_set_high(0b100));
    assert!(pin.is_set_low(0));

    let mut toggled = Script::new();
    pin.toggle(0, &mut toggled);
    assert_eq!(toggled.get(0), Some(gpio_overwrite(Field::P0Set, 0b100)));
    pin.toggle(0b100, &mut toggled);
    assert_eq!(toggled.get(1), Some(gpio_overwrite(Field::P0Reset, 0b100)));

    let mut set = Script::new();
    pin.set_state(PinState::High, &mut set);
    pin.set_state(PinState::Low, &mut set);
    pin.set_high(&mut set);
    pin.set_low(&mut set);
    assert_eq!(
        set.into_vec(),
        vec![
            gpio_overwrite(Field::P0Set, 0b100),
            gpio_overwrite(Field::P0Reset, 0b100),
            gpio_overwrite(Field::P0Set, 0b100),
            gpio_overwrite(Field::P0Reset, 0b100),
        ]
    );
}

#[test]
fn erased_input_reads_its_bit() {
    let parts = gpio_parts();
    let mut script = Script::new();
    let pin = parts.p0_11.into_pullup_input(&mut script).erase_number();
    assert!(pin.is_high(1 << 11));
    assert!(pin.is_low(0x7FF));
}

#[test]
fn typed_pin_converts_into_generic_pin() {
    let parts = gpio_parts();
    let pin: Pin<Disconnected> = Pin::from(parts.p0_04);
    assert_eq!(pin.pin(), 4);
    let other: Pin<Disconnected> = parts.p0_10.into();
    assert_eq!(other.pin(), 10);
}
