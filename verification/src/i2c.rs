//! The I2C controller, as bus master.
//!
//! Bringing the controller up is a script. A transfer is a machine: after
//! each byte that it hands to the controller it needs the abort source, and
//! after each read command the byte that arrived.

use crate::crg_top::{gate_script, CrgTop};
use crate::device::{lemma_last_store, reading};
use crate::gpio::{AfI2cScl, AfI2cSda, Pin};
use crate::nvic::{enable_script, priority_script, Irq, Nvic};
use crate::pac::I2C;
use crate::regs::{and, bit, modify, overwrite, overwrite_masked, Field, Instr, Step, Update};
use crate::script::{word, Script};
use vstd::prelude::*;
use vstd::slice::slice_to_vec;

verus! {

/// Turns the controller's token into its driver.
pub trait I2cExt {
    /// The driver, in place of the token: without pins, at standard speed,
    /// with seven bit addresses.
    fn constrain(self) -> (i2c: I2c)
        ensures
            !i2c.has_pins(),
            i2c.speed() == Speed::Standard,
            i2c.addressing_mode() == AddressingMode::Bits7,
    ;
}

impl I2cExt for I2C {
    fn constrain(self) -> (i2c: I2c) {
        I2c {
            i2c: self,
            pins: None,
            speed: Speed::Standard,
            addressing_mode: AddressingMode::Bits7,
        }
    }
}

/// The speed of the bus.
#[derive(Clone, Copy, Debug, PartialEq, Eq, Structural)]
pub enum Speed {
    /// 100 kbit/s
    Standard,
    /// 400 kbit/s
    FullSpeed,
}

impl Default for Speed {
    fn default() -> (speed: Self)
        ensures
            speed == Speed::Standard,
    {
        Speed::Standard
    }
}

/// The width of the addresses on the bus.
#[derive(Clone, Copy, Debug, PartialEq, Eq, Structural)]
pub enum AddressingMode {
    Bits7,
    Bits10,
}

impl Default for AddressingMode {
    fn default() -> (mode: Self)
        ensures
            mode == AddressingMode::Bits7,
    {
        AddressingMode::Bits7
    }
}

/// Why a transfer ended early.
#[derive(Clone, Copy, Debug, PartialEq, Eq, Structural)]
pub enum Error {
    /// The controller aborted a transmission.
    Transmit,
    /// A reception failed.
    Receive,
}

/// Seals [`Instance`].
pub trait Sealed {

}

/// A token that stands for an I2C controller.
pub trait Instance: Sealed {

}

impl Sealed for I2C {

}

impl Instance for I2C {

}

/// The data pin and the clock pin of the bus, held as they were handed in.
pub(crate) struct Pins {
    _sda: Pin<AfI2cSda>,
    _scl: Pin<AfI2cScl>,
}

impl Pins {
    pub(crate) fn new(sda: Pin<AfI2cSda>, scl: Pin<AfI2cScl>) -> (pins: Self)
        ensures
            pins.sda() == sda,
            pins.scl() == scl,
    {
        Self { _scl: scl, _sda: sda }
    }

    /// The data pin that is held.
    pub(crate) closed spec fn sda(&self) -> Pin<AfI2cSda> {
        self._sda
    }

    /// The clock pin that is held.
    pub(crate) closed spec fn scl(&self) -> Pin<AfI2cScl> {
        self._scl
    }
}

/// Driver of the I2C controller.
pub struct I2c {
    i2c: I2C,
    pins: Option<Pins>,
    speed: Speed,
    addressing_mode: AddressingMode,
}

/// The code of a speed in its register field.
pub open spec fn speed_code(speed: Speed) -> u32 {
    match speed {
        Speed::Standard => 1,
        Speed::FullSpeed => 0,
    }
}

/// Enable the controller and wait until it says so.
pub open spec fn enable_controller_script() -> Seq<Instr> {
    seq![modify(Field::CtrlEnable, Update::Store(1)), Instr::WaitSet(Field::CtrlEnable)]
}

/// Disable the controller and wait until it says so.
pub open spec fn disable_controller_script() -> Seq<Instr> {
    seq![modify(Field::CtrlEnable, Update::Store(0)), Instr::WaitClear(Field::CtrlEnable)]
}

/// What the controller is configured with while it is disabled: no
/// interrupt masked, the clock counts of both speeds, master mode at the
/// chosen speed and address width, and FIFO thresholds of zero.
pub open spec fn configure_script(speed: Speed, addressing_mode: AddressingMode) -> Seq<Instr> {
    seq![
        overwrite(Field::I2cIntrMask, 0),
        overwrite(Field::IcSsSclHcnt, 0x48),
        overwrite(Field::IcSsSclLcnt, 0x4F),
        overwrite(Field::IcFsSclHcnt, 0x08),
        overwrite(Field::IcFsSclLcnt, 0x17),
        overwrite(Field::I2cSpeed, speed_code(speed)),
        and(Field::I2cMasterMode, 1),
        and(Field::I2cSlaveDisable, 1),
        and(Field::I2c10bitaddrMaster, bit(addressing_mode == AddressingMode::Bits10)),
        overwrite(Field::RxTl, 0),
        overwrite(Field::TxTl, 0),
    ]
}

/// What [`I2c::start`] records: the clock gate opened, the controller
/// disabled, configured and enabled again, then its vector at priority 2,
/// enabled.
pub open spec fn start_script(speed: Speed, addressing_mode: AddressingMode) -> Seq<Instr> {
    gate_script(Field::I2cEnable, true) + disable_controller_script() + configure_script(
        speed,
        addressing_mode,
    ) + enable_controller_script() + priority_script(Irq::I2c, 2) + enable_script(Irq::I2c)
}

/// What addressing a slave records: the target address is set while the
/// controller is disabled.
pub open spec fn address_script(address: u16) -> Seq<Instr> {
    disable_controller_script() + seq![modify(Field::IcTar, Update::Store(address as u32))]
        + enable_controller_script()
}

/// Hand one byte to the controller for transmission: wait until the
/// transmit FIFO is empty, then write the byte as a write command, with the
/// stop condition after it if `stop`. The write runs with interrupts masked.
pub open spec fn send_script(byte: u8, stop: bool) -> Seq<Instr> {
    seq![
        Instr::WaitSet(Field::Tfe),
        overwrite_masked(Field::I2cCmd, 0),
        and(Field::I2cStop, bit(stop)),
        and(Field::Dat, byte as u32),
    ]
}

/// Ask the controller for one byte: wait until the transmit FIFO is empty,
/// write a read command, with the stop condition after it if `stop`, and
/// wait until the receive FIFO holds something.
pub open spec fn request_script(stop: bool) -> Seq<Instr> {
    seq![
        Instr::WaitSet(Field::Tfe),
        overwrite_masked(Field::I2cCmd, 1),
        and(Field::I2cStop, bit(stop)),
        Instr::WaitSet(Field::Rxflr),
    ]
}

/// After a byte was taken from the receive FIFO: wait until the transmit
/// FIFO is empty and the master has gone idle.
pub open spec fn settle_script() -> Seq<Instr> {
    seq![Instr::WaitSet(Field::Tfe), Instr::WaitClear(Field::MstActivity)]
}

/// Acknowledge an abort, by reading the register that clears it.
pub open spec fn clear_abort_script() -> Seq<Instr> {
    seq![Instr::Touch(Field::ClrTxAbrt)]
}

fn record_enable_controller(script: &mut Script)
    ensures
        final(script)@ == old(script)@ + enable_controller_script(),
{
    script.modify(Field::CtrlEnable, Update::Store(1));
    script.wait_set(Field::CtrlEnable);
    assert(script@ =~= old(script)@ + enable_controller_script());
}

fn record_disable_controller(script: &mut Script)
    ensures
        final(script)@ == old(script)@ + disable_controller_script(),
{
    script.modify(Field::CtrlEnable, Update::Store(0));
    script.wait_clear(Field::CtrlEnable);
    assert(script@ =~= old(script)@ + disable_controller_script());
}

fn record_send(byte: u8, stop: bool, script: &mut Script)
    ensures
        final(script)@ == old(script)@ + send_script(byte, stop),
{
    script.wait_set(Field::Tfe);
    script.overwrite_masked(Field::I2cCmd, 0);
    script.and(Field::I2cStop, word(stop));
    script.and(Field::Dat, byte as u32);
    assert(script@ =~= old(script)@ + send_script(byte, stop));
}

fn record_request(stop: bool, script: &mut Script)
    ensures
        final(script)@ == old(script)@ + request_script(stop),
{
    script.wait_set(Field::Tfe);
    script.overwrite_masked(Field::I2cCmd, 1);
    script.and(Field::I2cStop, word(stop));
    script.wait_set(Field::Rxflr);
    assert(script@ =~= old(script)@ + request_script(stop));
}

/// Where a transfer stands.
#[derive(Clone, Copy, Debug, PartialEq, Eq, Structural)]
pub enum TransferPhase {
    /// Between two bytes: the next step hands the next byte over.
    Ready,
    /// A byte was handed over; the abort source is awaited.
    Sent,
    /// A read command was written; the byte that arrived is awaited.
    Receiving,
    /// All bytes were transferred.
    Finished,
    /// The controller aborted a transmission.
    Failed,
}

/// A transfer, as the contracts see it.
pub struct TransferState {
    /// The bytes to write, all before the first read.
    pub wr: Seq<u8>,
    /// The read buffer: a place holds what is sent before its byte is
    /// asked for, and the byte that arrived after that.
    pub rd: Seq<u8>,
    /// How many bytes of `wr` the controller has taken without abort.
    pub written: nat,
    /// How many places of `rd` hold the byte that arrived.
    pub read: nat,
    /// Where the transfer stands.
    pub phase: TransferPhase,
}

/// What one step of a transfer comes to.
pub struct TransferOutcome {
    /// The transfer after the step.
    pub state: TransferState,
    /// What the step records.
    pub script: Seq<Instr>,
    /// What the caller does after performing the script.
    pub step: Step<Result<(), Error>>,
}

/// Whether the byte at `index` of a buffer of `len` bytes is the last one,
/// which is the one that carries the stop condition.
pub open spec fn is_last(index: nat, len: nat) -> bool {
    index + 1 == len
}

/// What the step out of [`TransferPhase::Ready`] comes to: the next byte to
/// write is handed over; or, where all are written, the content of the next
/// place to read; or, where nothing is left, the transfer has finished.
pub open spec fn begin_next(state: TransferState) -> TransferOutcome {
    if state.written < state.wr.len() {
        TransferOutcome {
            state: TransferState { phase: TransferPhase::Sent, ..state },
            script: send_script(
                state.wr[state.written as int],
                is_last(state.written, state.wr.len()),
            ),
            step: Step::Ask(Field::TxAbrtSource),
        }
    } else if state.read < state.rd.len() {
        TransferOutcome {
            state: TransferState { phase: TransferPhase::Sent, ..state },
            script: send_script(state.rd[state.read as int], is_last(state.read, state.rd.len())),
            step: Step::Ask(Field::TxAbrtSource),
        }
    } else {
        TransferOutcome {
            state: TransferState { phase: TransferPhase::Finished, ..state },
            script: Seq::<Instr>::empty(),
            step: Step::Done(Ok(())),
        }
    }
}

/// The byte that a word read from the data register holds.
pub open spec fn low_byte(word: u32) -> u8 {
    (word % 0x100) as u8
}

/// What one step of a transfer comes to, with `reply` the value of the field
/// that the step before asked for.
pub open spec fn transfer_step(state: TransferState, reply: u32) -> TransferOutcome {
    match state.phase {
        TransferPhase::Ready => begin_next(state),
        TransferPhase::Sent => if reply != 0 {
            TransferOutcome {
                state: TransferState { phase: TransferPhase::Failed, ..state },
                script: clear_abort_script(),
                step: Step::Done(Err(Error::Transmit)),
            }
        } else if state.written < state.wr.len() {
            begin_next(TransferState { written: state.written + 1, ..state })
        } else {
            TransferOutcome {
                state: TransferState { phase: TransferPhase::Receiving, ..state },
                script: request_script(is_last(state.read, state.rd.len())),
                step: Step::Ask(Field::Dat),
            }
        },
        TransferPhase::Receiving => {
            let stored = TransferState {
                rd: state.rd.update(state.read as int, low_byte(reply)),
                read: state.read + 1,
                ..state
            };
            let next = begin_next(stored);
            TransferOutcome { script: settle_script() + next.script, ..next }
        },
        TransferPhase::Finished => TransferOutcome {
            state,
            script: Seq::<Instr>::empty(),
            step: Step::Done(Ok(())),
        },
        TransferPhase::Failed => TransferOutcome {
            state,
            script: Seq::<Instr>::empty(),
            step: Step::Done(Err(Error::Transmit)),
        },
    }
}

/// Whether a transfer's counters are within its buffers, and a byte that is
/// awaited has a place.
pub open spec fn transfer_wf(state: TransferState) -> bool {
    &&& state.written <= state.wr.len()
    &&& state.read <= state.rd.len()
    &&& state.phase == TransferPhase::Sent ==> state.written < state.wr.len() || state.read
        < state.rd.len()
    &&& state.phase == TransferPhase::Receiving ==> state.written == state.wr.len() && state.read
        < state.rd.len()
}

/// A transfer in progress. Its view is its state.
pub struct Transfer {
    wr: Vec<u8>,
    rd: Vec<u8>,
    written: usize,
    read: usize,
    phase: TransferPhase,
}

impl View for Transfer {
    type V = TransferState;

    closed spec fn view(&self) -> TransferState {
        TransferState {
            wr: self.wr@,
            rd: self.rd@,
            written: self.written as nat,
            read: self.read as nat,
            phase: self.phase,
        }
    }
}

impl Transfer {
    fn begin(wr: Vec<u8>, rd: Vec<u8>) -> (transfer: Transfer)
        ensures
            transfer_wf(transfer@),
            transfer@ == (TransferState {
                wr: wr@,
                rd: rd@,
                written: 0,
                read: 0,
                phase: TransferPhase::Ready,
            }),
    {
        Transfer { wr, rd, written: 0, read: 0, phase: TransferPhase::Ready }
    }

    fn next(&mut self, script: &mut Script) -> (step: Step<Result<(), Error>>)
        requires
            old(self).written <= old(self).wr@.len(),
            old(self).read <= old(self).rd@.len(),
        ensures
            final(self)@ == begin_next(old(self)@).state,
            final(script)@ == old(script)@ + begin_next(old(self)@).script,
            step == begin_next(old(self)@).step,
            final(self).wr == old(self).wr,
            final(self).rd == old(self).rd,
            final(self).written == old(self).written,
            final(self).read == old(self).read,
            transfer_wf(final(self)@),
    {
        if self.written < self.wr.len() {
            let last: bool = self.written + 1 == self.wr.len();
            record_send(self.wr[self.written], last, script);
            self.phase = TransferPhase::Sent;
            Step::Ask(Field::TxAbrtSource)
        } else if self.read < self.rd.len() {
            let last: bool = self.read + 1 == self.rd.len();
            record_send(self.rd[self.read], last, script);
            self.phase = TransferPhase::Sent;
            Step::Ask(Field::TxAbrtSource)
        } else {
            self.phase = TransferPhase::Finished;
            assert(script@ =~= old(script)@ + Seq::<Instr>::empty());
            Step::Done(Ok(()))
        }
    }

    /// One step of the transfer. The first call takes no reply; each later
    /// one takes the value of the field that the call before asked for.
    /// Every transfer that this module hands out is well formed, and stays
    /// so.
    pub fn resume(&mut self, reply: u32, script: &mut Script) -> (step: Step<Result<(), Error>>)
        requires
            transfer_wf(old(self)@),
        ensures
            transfer_wf(final(self)@),
            final(self)@ == transfer_step(old(self)@, reply).state,
            final(script)@ == old(script)@ + transfer_step(old(self)@, reply).script,
            step == transfer_step(old(self)@, reply).step,
    {
        let places: usize = self.rd.len();
        match self.phase {
            TransferPhase::Ready => self.next(script),
            TransferPhase::Sent => {
                if reply != 0 {
                    self.phase = TransferPhase::Failed;
                    script.touch(Field::ClrTxAbrt);
                    assert(script@ =~= old(script)@ + clear_abort_script());
                    Step::Done(Err(Error::Transmit))
                } else if self.written < self.wr.len() {
                    self.phase = TransferPhase::Ready;
                    self.written = self.written + 1;
                    self.next(script)
                } else {
                    let last: bool = self.read + 1 == places;
                    record_request(last, script);
                    self.phase = TransferPhase::Receiving;
                    Step::Ask(Field::Dat)
                }
            },
            TransferPhase::Receiving => {
                let byte: u8 = (reply % 0x100) as u8;
                self.phase = TransferPhase::Ready;
                self.rd.set(self.read, byte);
                self.read = self.read + 1;
                script.wait_set(Field::Tfe);
                script.wait_clear(Field::MstActivity);
                let ghost stored = self@;
                let step = self.next(script);
                assert(script@ =~= old(script)@ + (settle_script() + begin_next(stored).script));
                step
            },
            TransferPhase::Finished => {
                assert(script@ =~= old(script)@ + Seq::<Instr>::empty());
                Step::Done(Ok(()))
            },
            TransferPhase::Failed => {
                assert(script@ =~= old(script)@ + Seq::<Instr>::empty());
                Step::Done(Err(Error::Transmit))
            },
        }
    }

    /// The read buffer as it stands: the places below the number of bytes
    /// read hold what arrived.
    pub fn received(&self) -> (bytes: &Vec<u8>)
        ensures
            bytes@ == self@.rd,
    {
        &self.rd
    }
}

impl I2c {
    /// Whether the bus pins were handed over.
    pub closed spec fn has_pins(&self) -> bool {
        self.pins.is_some()
    }

    /// The speed of the bus.
    pub closed spec fn speed(&self) -> Speed {
        self.speed
    }

    /// The width of the addresses on the bus.
    pub closed spec fn addressing_mode(&self) -> AddressingMode {
        self.addressing_mode
    }

    /// Hand the bus pins over.
    pub fn set_pins(self, sda: Pin<AfI2cSda>, scl: Pin<AfI2cScl>) -> (i2c: Self)
        ensures
            i2c.has_pins(),
            i2c.speed() == self.speed(),
            i2c.addressing_mode() == self.addressing_mode(),
    {
        let mut i2c = self;
        i2c.pins = Some(Pins::new(sda, scl));
        i2c
    }

    /// Choose the speed of the bus.
    pub fn set_speed(self, speed: Speed) -> (i2c: Self)
        ensures
            i2c.has_pins() == self.has_pins(),
            i2c.speed() == speed,
            i2c.addressing_mode() == self.addressing_mode(),
    {
        let mut i2c = self;
        i2c.speed = speed;
        i2c
    }

    /// Choose the width of the addresses.
    pub fn set_addressing_mode(self, addressing_mode: AddressingMode) -> (i2c: Self)
        ensures
            i2c.has_pins() == self.has_pins(),
            i2c.speed() == self.speed(),
            i2c.addressing_mode() == addressing_mode,
    {
        let mut i2c = self;
        i2c.addressing_mode = addressing_mode;
        i2c
    }

    /// Whether the bus pins were handed over.
    pub fn pins_set(&self) -> (set: bool)
        ensures
            set == self.has_pins(),
    {
        self.pins.is_some()
    }

    /// Bring the controller up as bus master. The pins were handed over
    /// before.
    pub fn start(&mut self, nvic: &mut Nvic, crg_top: &CrgTop, script: &mut Script)
        requires
            old(self).has_pins(),
        ensures
            final(self).has_pins(),
            final(self).speed() == old(self).speed(),
            final(self).addressing_mode() == old(self).addressing_mode(),
            final(script)@ == old(script)@ + start_script(
                old(self).speed(),
                old(self).addressing_mode(),
            ),
    {
        crg_top.enable_peripheral::<I2C>(script);
        self.disable_controller(script);
        script.overwrite(Field::I2cIntrMask, 0);
        script.overwrite(Field::IcSsSclHcnt, 0x48);
        script.overwrite(Field::IcSsSclLcnt, 0x4F);
        script.overwrite(Field::IcFsSclHcnt, 0x08);
        script.overwrite(Field::IcFsSclLcnt, 0x17);
        let speed: u32 = match self.speed {
            Speed::Standard => 1,
            Speed::FullSpeed => 0,
        };
        script.overwrite(Field::I2cSpeed, speed);
        script.and(Field::I2cMasterMode, 1);
        script.and(Field::I2cSlaveDisable, 1);
        script.and(
            Field::I2c10bitaddrMaster,
            word(self.addressing_mode == AddressingMode::Bits10),
        );
        script.overwrite(Field::RxTl, 0);
        script.overwrite(Field::TxTl, 0);
        self.enable_controller(script);
        nvic.set_priority(Irq::I2c, 2, script);
        nvic.enable_irq(Irq::I2c, script);
        assert(script@ =~= old(script)@ + start_script(self.speed, self.addressing_mode));
    }

    /// Hand one byte to the controller. After the script the caller reads
    /// [`Field::TxAbrtSource`] and gives the value to
    /// [`I2c::check_abort`].
    pub fn send_byte(&self, byte: u8, stop: bool, script: &mut Script)
        ensures
            final(script)@ == old(script)@ + send_script(byte, stop),
    {
        record_send(byte, stop, script);
    }

    /// Whether a transmission went through, from the abort source: any
    /// source fails it, and the abort is acknowledged.
    pub fn check_abort(&self, abort_source: u32, script: &mut Script) -> (sent: Result<(), Error>)
        ensures
            sent == if abort_source != 0 {
                Err::<(), Error>(Error::Transmit)
            } else {
                Ok::<(), Error>(())
            },
            final(script)@ == old(script)@ + if abort_source != 0 {
                clear_abort_script()
            } else {
                Seq::<Instr>::empty()
            },
    {
        if abort_source != 0 {
            script.touch(Field::ClrTxAbrt);
            assert(script@ =~= old(script)@ + clear_abort_script());
            Err(Error::Transmit)
        } else {
            assert(script@ =~= old(script)@ + Seq::<Instr>::empty());
            Ok(())
        }
    }

    /// Ask the controller for one byte. After the script the caller reads
    /// [`Field::Dat`], which holds the byte, and performs
    /// [`I2c::settle`].
    pub fn recv_byte(&self, stop: bool, script: &mut Script)
        ensures
            final(script)@ == old(script)@ + request_script(stop),
    {
        record_request(stop, script);
    }

    /// Wait until the controller has finished with the byte that was read.
    pub fn settle(&self, script: &mut Script)
        ensures
            final(script)@ == old(script)@ + settle_script(),
    {
        script.wait_set(Field::Tfe);
        script.wait_clear(Field::MstActivity);
        assert(script@ =~= old(script)@ + settle_script());
    }

    /// Begin to write `buffer` to the addressed slave. The last byte carries
    /// the stop condition.
    pub fn write(&mut self, buffer: &[u8]) -> (transfer: Transfer)
        ensures
            transfer_wf(transfer@),
            transfer@ == (TransferState {
                wr: buffer@,
                rd: Seq::<u8>::empty(),
                written: 0,
                read: 0,
                phase: TransferPhase::Ready,
            }),
    {
        Transfer::begin(slice_to_vec(buffer), Vec::new())
    }

    /// Begin to read as many bytes from the addressed slave as `buffer`
    /// holds. What a place of `buffer` holds is sent before its byte is
    /// asked for; the last place carries the stop condition both times.
    pub fn read(&mut self, buffer: &[u8]) -> (transfer: Transfer)
        ensures
            transfer_wf(transfer@),
            transfer@ == (TransferState {
                wr: Seq::<u8>::empty(),
                rd: buffer@,
                written: 0,
                read: 0,
                phase: TransferPhase::Ready,
            }),
    {
        Transfer::begin(Vec::new(), slice_to_vec(buffer))
    }

    /// Begin to write `wr_buffer` and then to read as [`I2c::read`] does
    /// with `rd_buffer`.
    pub fn write_then_read(&mut self, wr_buffer: &[u8], rd_buffer: &[u8]) -> (transfer: Transfer)
        ensures
            transfer_wf(transfer@),
            transfer@ == (TransferState {
                wr: wr_buffer@,
                rd: rd_buffer@,
                written: 0,
                read: 0,
                phase: TransferPhase::Ready,
            }),
    {
        Transfer::begin(slice_to_vec(wr_buffer), slice_to_vec(rd_buffer))
    }

    /// Address the slave that the next transfers speak to.
    pub fn set_slave_address(&mut self, address: u16, script: &mut Script)
        ensures
            final(self).has_pins() == old(self).has_pins(),
            final(self).speed() == old(self).speed(),
            final(self).addressing_mode() == old(self).addressing_mode(),
            final(script)@ == old(script)@ + address_script(address),
    {
        self.disable_controller(script);
        script.modify(Field::IcTar, Update::Store(address as u32));
        self.enable_controller(script);
        assert(script@ =~= old(script)@ + address_script(address));
    }

    /// Enable the controller and wait until it is enabled.
    pub fn enable_controller(&mut self, script: &mut Script)
        ensures
            final(self).has_pins() == old(self).has_pins(),
            final(self).speed() == old(self).speed(),
            final(self).addressing_mode() == old(self).addressing_mode(),
            final(script)@ == old(script)@ + enable_controller_script(),
    {
        record_enable_controller(script);
    }

    /// Disable the controller and wait until it is disabled.
    pub fn disable_controller(&mut self, script: &mut Script)
        ensures
            final(self).has_pins() == old(self).has_pins(),
            final(self).speed() == old(self).speed(),
            final(self).addressing_mode() == old(self).addressing_mode(),
            final(script)@ == old(script)@ + disable_controller_script(),
    {
        record_disable_controller(script);
    }
}

/// What the handler of the controller's interrupt records: its vector is
/// no longer pending.
pub open spec fn unpend_script() -> Seq<Instr> {
    seq![overwrite(Field::NvicIcpr, crate::nvic::irq_bit(Irq::I2c))]
}

/// What the handler of the controller's interrupt does.
pub fn unpend_interrupt(script: &mut Script)
    ensures
        final(script)@ == old(script)@ + unpend_script(),
{
    script.overwrite(Field::NvicIcpr, Irq::I2c.mask());
    assert(script@ =~= old(script)@ + unpend_script());
}

/// What bringing the controller up leaves behind, once its script has run:
/// the controller's clock on, no interrupt masked, master mode with the
/// slave side off, the speed and the address width that were chosen, both
/// FIFO thresholds at zero, the controller enabled, and its vector at
/// priority 2.
pub proof fn lemma_start_configures(
    history: Seq<Instr>,
    speed: Speed,
    addressing_mode: AddressingMode,
)
    ensures
        ({
            let after = history + start_script(speed, addressing_mode);
            &&& reading(after, Field::I2cEnable) == 1
            &&& reading(after, Field::I2cIntrMask) == 0
            &&& reading(after, Field::IcSsSclHcnt) == 0x48
            &&& reading(after, Field::IcSsSclLcnt) == 0x4F
            &&& reading(after, Field::IcFsSclHcnt) == 0x08
            &&& reading(after, Field::IcFsSclLcnt) == 0x17
            &&& reading(after, Field::I2cSpeed) == speed_code(speed)
            &&& reading(after, Field::I2cMasterMode) == 1
            &&& reading(after, Field::I2cSlaveDisable) == 1
            &&& reading(after, Field::I2c10bitaddrMaster) == bit(
                addressing_mode == AddressingMode::Bits10,
            )
            &&& reading(after, Field::RxTl) == 0
            &&& reading(after, Field::TxTl) == 0
            &&& reading(after, Field::CtrlEnable) == 1
            &&& reading(after, Field::IrqPriority(crate::nvic::irq_number(Irq::I2c))) == 2
        }),
{
    let s = start_script(speed, addressing_mode);
    assert(s.len() == 18);
    lemma_last_store(history, s, 0, Field::I2cEnable, 1);
    lemma_last_store(history, s, 3, Field::I2cIntrMask, 0);
    lemma_last_store(history, s, 4, Field::IcSsSclHcnt, 0x48);
    lemma_last_store(history, s, 5, Field::IcSsSclLcnt, 0x4F);
    lemma_last_store(history, s, 6, Field::IcFsSclHcnt, 0x08);
    lemma_last_store(history, s, 7, Field::IcFsSclLcnt, 0x17);
    lemma_last_store(history, s, 8, Field::I2cSpeed, speed_code(speed));
    lemma_last_store(history, s, 9, Field::I2cMasterMode, 1);
    lemma_last_store(history, s, 10, Field::I2cSlaveDisable, 1);
    lemma_last_store(
        history,
        s,
        11,
        Field::I2c10bitaddrMaster,
        bit(addressing_mode == AddressingMode::Bits10),
    );
    lemma_last_store(history, s, 12, Field::RxTl, 0);
    lemma_last_store(history, s, 13, Field::TxTl, 0);
    lemma_last_store(history, s, 14, Field::CtrlEnable, 1);
    lemma_last_store(history, s, 16, Field::IrqPriority(crate::nvic::irq_number(Irq::I2c)), 2);
}

/// The state of a write of `buffer` in which `index` bytes have gone
/// through and the next is to be handed over.
pub open spec fn writing(buffer: Seq<u8>, index: nat) -> TransferState {
    TransferState {
        wr: buffer,
        rd: Seq::<u8>::empty(),
        written: index,
        read: 0,
        phase: TransferPhase::Ready,
    }
}

/// In a write of a buffer, the byte at `index` is handed over with the stop
/// condition if it is the last byte, and without it otherwise: among the
/// bytes of a buffer that is not empty, exactly one carries the stop
/// condition, the last.
pub proof fn lemma_stop_on_last_byte_only(buffer: Seq<u8>, index: nat, other: nat)
    requires
        index < buffer.len(),
        other < buffer.len(),
    ensures
        transfer_step(writing(buffer, index), 0).script == send_script(
            buffer[index as int],
            index + 1 == buffer.len(),
        ),
        transfer_step(writing(buffer, index), 0).script[2] == and(
            Field::I2cStop,
            bit(index + 1 == buffer.len()),
        ),
        is_last(index, buffer.len()) && is_last(other, buffer.len()) ==> index == other,
        is_last((buffer.len() - 1) as nat, buffer.len()),
{
}

/// A write goes from byte to byte: once the byte at `index` went through
/// without abort, the next step hands over the byte after it, or finishes
/// with success after the last; an abort ends the write with
/// [`Error::Transmit`] and is acknowledged.
pub proof fn lemma_write_progress(buffer: Seq<u8>, index: nat, abort_source: u32)
    requires
        index < buffer.len(),
    ensures
        transfer_step(
            TransferState { phase: TransferPhase::Sent, ..writing(buffer, index) },
            abort_source,
        ) == if abort_source != 0 {
            TransferOutcome {
                state: TransferState { phase: TransferPhase::Failed, ..writing(buffer, index) },
                script: clear_abort_script(),
                step: Step::Done(Err(Error::Transmit)),
            }
        } else if index + 1 < buffer.len() {
            TransferOutcome {
                state: TransferState { phase: TransferPhase::Sent, ..writing(buffer, index + 1) },
                script: send_script(buffer[index as int + 1], index + 2 == buffer.len()),
                step: Step::Ask(Field::TxAbrtSource),
            }
        } else {
            TransferOutcome {
                state: TransferState {
                    phase: TransferPhase::Finished,
                    ..writing(buffer, index + 1)
                },
                script: Seq::<Instr>::empty(),
                step: Step::Done(Ok(())),
            }
        },
{
}

} // verus!
