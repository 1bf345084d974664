use da14531_hal::crg_top::CrgTopExt;
use da14531_hal::gpio::p0::Parts;
use da14531_hal::i2c::{AddressingMode, Error, I2c, I2cExt, Speed};
use da14531_hal::nvic::NvicExt;
use da14531_hal::pac::Slot;
use da14531_hal::regs::{Access, Field, Instr, Step, Update};
use da14531_hal::script::Script;

fn i2c_put(access: Access, field: Field, value: u32, masked: bool) -> Instr {
    Instr::Put { access, field, update: Update::Store(value), masked }
}

fn i2c_and(field: Field, value: u32) -> Instr {
    Instr::And { field, update: Update::Store(value) }
}

fn i2c_send(byte: u8, stop: bool) -> Vec<Instr> {
    vec![
        Instr::WaitSet(Field::Tfe),
        i2c_put(Access::Write, Field::I2cCmd, 0, true),
        i2c_and(Field::I2cStop, stop as u32),
        i2c_and(Field::Dat, byte as u32),
    ]
}

fn i2c_request(stop: bool) -> Vec<Instr> {
    vec![
        Instr::WaitSet(Field::Tfe),
        i2c_put(Access::Write, Field::I2cCmd, 1, true),
        i2c_and(Field::I2cStop, stop as u32),
        Instr::WaitSet(Field::Rxflr),
    ]
}

fn i2c_settle() -> Vec<Instr> {
    vec![Instr::WaitSet(Field::Tfe), Instr::WaitClear(Field::MstActivity)]
}

fn i2c_driver() -> I2c {
    Slot::new().take().unwrap().I2C.constrain()
}

fn i2c_step(transfer: &mut da14531_hal::i2c::Transfer, reply: u32) -> (Step<Result<(), Error>>, Vec<Instr>) {
    let mut script = Script::new();
    let step = transfer.resume(reply, &mut script);
    (step, script.into_vec())
}

#[test]
fn defaults_are_standard_speed_and_seven_bits() {
    assert_eq!(Speed::default(), Speed::Standard);
    assert_eq!(AddressingMode::default(), AddressingMode::Bits7);
    assert!(!i2c_driver().pins_set());
}

#[test]
fn start_brings_the_controller_up_in_order() {
    let peripherals = Slot::new().take().unwrap();
    let parts = Parts::new(peripherals.GPIO);
    let mut pins = Script::new();
    let sda = parts.p0_03.into_alternate::<10, 0b00>(&mut pins).degrade();
    let scl = parts.p0_04.into_alternate::<9, 0b00>(&mut pins).degrade();
    let mut i2c = peripherals
        .I2C
        .constrain()
        .set_pins(sda, scl)
        .set_speed(Speed::FullSpeed)
        .set_addressing_mode(AddressingMode::Bits10);
    assert!(i2c.pins_set());
    let mut nvic = peripherals.NVIC.constrain();
    let crg_top = peripherals.CRG_TOP.constrain();
    let mut script = Script::new();
    i2c.start(&mut nvic, &crg_top, &mut script);
    assert_eq!(
        script.into_vec(),
        vec![
            i2c_put(Access::Modify, Field::I2cEnable, 1, true),
            i2c_put(Access::Modify, Field::CtrlEnable, 0, false),
            Instr::WaitClear(Field::CtrlEnable),
            i2c_put(Access::Write, Field::I2cIntrMask, 0, false),
            i2c_put(Access::Write, Field::IcSsSclHcnt, 0x48, false),
            i2c_put(Access::Write, Field::IcSsSclLcnt, 0x4F, false),
            i2c_put(Access::Write, Field::IcFsSclHcnt, 0x08, false),
            i2c_put(Access::Write, Field::IcFsSclLcnt, 0x17, false),
            i2c_put(Access::Write, Field::I2cSpeed, 0, false),
            i2c_and(Field::I2cMasterMode, 1),
            i2c_and(Field::I2cSlaveDisable, 1),
            i2c_and(Field::I2c10bitaddrMaster, 1),
            i2c_put(Access::Write, Field::RxTl, 0, false),
            i2c_put(Access::Write, Field::TxTl, 0, false),
            i2c_put(Access::Modify, Field::CtrlEnable, 1, false),
            Instr::WaitSet(Field::CtrlEnable),
            i2c_put(Access::Modify, Field::IrqPriority(4), 2, false),
            i2c_put(Access::Write, Field::NvicIser, 1 << 4, false),
        ]
    );
}

#[test]
fn standard_speed_has_code_1_and_seven_bits_clear_the_flag() {
    let peripherals = Slot::new().take().unwrap();
    let parts = Parts::new(peripherals.GPIO);
    let mut pins = Script::new();
    let sda = parts.p0_03.into_alternate::<10, 0b00>(&mut pins).degrade();
    let scl = parts.p0_04.into_alternate::<9, 0b00>(&mut pins).degrade();
    let mut i2c = peripherals.I2C.constrain().set_pins(sda, scl);
    let mut nvic = peripherals.NVIC.constrain();
    let crg_top = peripherals.CRG_TOP.constrain();
    let mut script = Script::new();
    i2c.start(&mut nvic, &crg_top, &mut script);
    assert_eq!(script.get(8), Some(i2c_put(Access::Write, Field::I2cSpeed, 1, false)));
    assert_eq!(script.get(11), Some(i2c_and(Field::I2c10bitaddrMaster, 0)));
}

#[test]
fn slave_address_is_set_while_disabled() {
    let mut i2c = i2c_driver();
    let mut script = Script::new();
    i2c.set_slave_address(0x3C, &mut script);
    assert_eq!(
        script.into_vec(),
        vec![
            i2c_put(Access::Modify, Field::CtrlEnable, 0, false),
            Instr::WaitClear(Field::CtrlEnable),
            i2c_put(Access::Modify, Field::IcTar, 0x3C, false),
            i2c_put(Access::Modify, Field::CtrlEnable, 1, false),
            Instr::WaitSet(Field::CtrlEnable),
        ]
    );
}

#[test]
fn write_puts_the_stop_condition_on_the_last_byte_only() {
    let mut i2c = i2c_driver();
    let buffer = [0x10u8, 0x20, 0x30, 0x40];
    let mut transfer = i2c.write(&buffer);
    let mut stops = 0;
    let mut reply = 0;
    for (index, byte) in buffer.iter().enumerate() {
        let (step, script) = i2c_step(&mut transfer, reply);
        assert_eq!(step, Step::Ask(Field::TxAbrtSource));
        let last = index + 1 == buffer.len();
        assert_eq!(script, i2c_send(*byte, last));
        if script[2] == i2c_and(Field::I2cStop, 1) {
            stops += 1;
            assert!(last);
        }
        reply = 0;
    }
    assert_eq!(stops, 1);
    let (step, script) = i2c_step(&mut transfer, 0);
    assert_eq!(step, Step::Done(Ok(())));
    assert!(script.is_empty());
    let (step, script) = i2c_step(&mut transfer, 0);
    assert_eq!(step, Step::Done(Ok(())));
    assert!(script.is_empty());
}

#[test]
fn write_of_one_byte_stops_on_it() {
    let mut i2c = i2c_driver();
    let mut transfer = i2c.write(&[0xA5]);
    let (step, script) = i2c_step(&mut transfer, 0);
    assert_eq!(step, Step::Ask(Field::TxAbrtSource));
    assert_eq!(script, i2c_send(0xA5, true));
    let (step, _) = i2c_step(&mut transfer, 0);
    assert_eq!(step, Step::Done(Ok(())));
}

#[test]
fn write_of_nothing_is_done_at_once() {
    let mut i2c = i2c_driver();
    let mut transfer = i2c.write(&[]);
    let (step, script) = i2c_step(&mut transfer, 0);
    assert_eq!(step, Step::Done(Ok(())));
    assert!(script.is_empty());
}

#[test]
fn an_abort_ends_the_write_and_is_acknowledged() {
    let mut i2c = i2c_driver();
    let mut transfer = i2c.write(&[1, 2, 3]);
    let (step, _) = i2c_step(&mut transfer, 0);
    assert_eq!(step, Step::Ask(Field::TxAbrtSource));
    let (step, script) = i2c_step(&mut transfer, 0);
    assert_eq!(step, Step::Ask(Field::TxAbrtSource));
    assert_eq!(script, i2c_send(2, false));
    let (step, script) = i2c_step(&mut transfer, 0x0001);
    assert_eq!(step, Step::Done(Err(Error::Transmit)));
    assert_eq!(script, vec![Instr::Touch(Field::ClrTxAbrt)]);
    let (step, script) = i2c_step(&mut transfer, 0);
    assert_eq!(step, Step::Done(Err(Error::Transmit)));
    assert!(script.is_empty());
}

#[test]
fn read_sends_then_asks_for_each_place() {
    let mut i2c = i2c_driver();
    let mut transfer = i2c.read(&[0x11, 0x22]);
    let (step, script) = i2c_step(&mut transfer, 0);
    assert_eq!(step, Step::Ask(Field::TxAbrtSource));
    assert_eq!(script, i2c_send(0x11, false));
    let (step, script) = i2c_step(&mut transfer, 0);
    assert_eq!(step, Step::Ask(Field::Dat));
    assert_eq!(script, i2c_request(false));
    let (step, script) = i2c_step(&mut transfer, 0xAB);
    assert_eq!(step, Step::Ask(Field::TxAbrtSource));
    let mut expected = i2c_settle();
    expected.extend(i2c_send(0x22, true));
    assert_eq!(script, expected);
    assert_eq!(transfer.received(), &vec![0xAB, 0x22]);
    let (step, script) = i2c_step(&mut transfer, 0);
    assert_eq!(step, Step::Ask(Field::Dat));
    assert_eq!(script, i2c_request(true));
    let (step, script) = i2c_step(&mut transfer, 0x1CD);
    assert_eq!(step, Step::Done(Ok(())));
    assert_eq!(script, i2c_settle());
    assert_eq!(transfer.received(), &vec![0xAB, 0xCD]);
}

#[test]
fn read_fails_when_its_send_is_aborted() {
    let mut i2c = i2c_driver();
    let mut transfer = i2c.read(&[0, 0]);
    i2c_step(&mut transfer, 0);
    let (step, script) = i2c_step(&mut transfer, 0x80);
    assert_eq!(step, Step::Done(Err(Error::Transmit)));
    assert_eq!(script, vec![Instr::Touch(Field::ClrTxAbrt)]);
    assert_eq!(transfer.received(), &vec![0, 0]);
}

#[test]
fn write_then_read_writes_all_before_it_reads() {
    let mut i2c = i2c_driver();
    let mut transfer = i2c.write_then_read(&[0x01, 0x02], &[0x00]);
    let (_, script) = i2c_step(&mut transfer, 0);
    assert_eq!(script, i2c_send(0x01, false));
    let (_, script) = i2c_step(&mut transfer, 0);
    assert_eq!(script, i2c_send(0x02, true));
    let (step, script) = i2c_step(&mut transfer, 0);
    assert_eq!(step, Step::Ask(Field::TxAbrtSource));
    assert_eq!(script, i2c_send(0x00, true));
    let (step, script) = i2c_step(&mut transfer, 0);
    assert_eq!(step, Step::Ask(Field::Dat));
    assert_eq!(script, i2c_request(true));
    let (step, script) = i2c_step(&mut transfer, 0x7F);
    assert_eq!(step, Step::Done(Ok(())));
    assert_eq!(script, i2c_settle());
    assert_eq!(transfer.received(), &vec![0x7F]);
}

#[test]
fn single_byte_operations() {
    let i2c = i2c_driver();
    let mut script = Script::new();
    i2c.send_byte(0x5A, true, &mut script);
    assert_eq!(script.into_vec(), i2c_send(0x5A, true));
    let mut script = Script::new();
    i2c.recv_byte(false, &mut script);
    i2c.settle(&mut script);
    let mut expected = i2c_request(false);
    expected.extend(i2c_settle());
    assert_eq!(script.into_vec(), expected);
}

#[test]
fn abort_check_fails_on_any_source() {
    let i2c = i2c_driver();
    let mut script = Script::new();
    assert_eq!(i2c.check_abort(0, &mut script), Ok(()));
    assert_eq!(script.len(), 0);
    assert_eq!(i2c.check_abort(0x8000, &mut script), Err(Error::Transmit));
    assert_eq!(i2c.check_abort(1, &mut script), Err(Error::Transmit));
    assert_eq!(
        script.into_vec(),
        vec![Instr::Touch(Field::ClrTxAbrt), Instr::Touch(Field::ClrTxAbrt)]
    );
}

#[test]
fn controller_enable_and_disable_wait_for_the_bit() {
    let mut i2c = i2c_driver();
    let mut script = Script::new();
    i2c.enable_controller(&mut script);
    i2c.disable_controller(&mut script);
    assert_eq!(
        script.into_vec(),
        vec![
            i2c_put(Access::Modify, Field::CtrlEnable, 1, false),
            Instr::WaitSet(Field::CtrlEnable),
            i2c_put(Access::Modify, Field::CtrlEnable, 0, false),
            Instr::WaitClear(Field::CtrlEnable),
        ]
    );
}

#[test]
fn interrupt_handler_unpends_the_vector() {
    let mut script = Script::new();
    da14531_hal::i2c::unpend_interrupt(&mut script);
    assert_eq!(
        script.into_vec(),
        vec![i2c_put(Access::Write, Field::NvicIcpr, 1 << 4, false)]
    );
}
