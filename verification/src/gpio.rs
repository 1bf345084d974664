//! The port pins and their modes.
//!
//! A pin's mode is part of its type. A transition takes the handle, records
//! the one write that programs the mode register, and gives back a handle of
//! the new mode, so that a handle offers only what its mode allows.

use crate::device::{lemma_reading_push, reading};
use crate::regs::{and, overwrite, Field, Instr, Reg};
use crate::script::Script;
use std::marker::PhantomData;
use vstd::prelude::*;

pub mod p0;
pub mod partially_erased;

verus! {

/// Disconnected pin (type state, the mode after reset).
pub struct Disconnected;

/// Input mode (type state).
pub struct Input<MODE> {
    _mode: PhantomData<MODE>,
}

/// Floating input (type state).
pub struct Floating;

/// Pulled down input (type state).
pub struct PullDown;

/// Pulled up input (type state).
pub struct PullUp;

/// Output mode (type state).
pub struct Output;

/// Alternate function mode (type state): the pin serves the peripheral
/// function `PID`, with the pull configuration `PUPD`.
pub struct AlternateFunction<const PID: u8, const PUPD: u8>;

pub type AfUart1Rx = AlternateFunction<1, 0b01>;

pub type AfUart1Tx = AlternateFunction<2, 0b01>;

pub type AfUart2Rx = AlternateFunction<3, 0b01>;

pub type AfUart2Tx = AlternateFunction<4, 0b01>;

pub type AfSysClk = AlternateFunction<5, 0b01>;

pub type AfLpClk = AlternateFunction<6, 0b01>;

pub type AfI2cScl = AlternateFunction<9, 0b00>;

pub type AfI2cSda = AlternateFunction<10, 0b00>;

pub type AfPwm5 = AlternateFunction<11, 0b11>;

pub type AfPwm6 = AlternateFunction<12, 0b11>;

pub type AfPwm7 = AlternateFunction<13, 0b11>;

pub type AfAdc = AlternateFunction<15, 0b00>;

pub type AfPwm0 = AlternateFunction<16, 0b11>;

pub type AfPwm1 = AlternateFunction<17, 0b11>;

pub type AfBleDiag = AlternateFunction<18, 0b01>;

pub type AfUart1Ctsn = AlternateFunction<19, 0b01>;

pub type AfUart1Rtsn = AlternateFunction<20, 0b01>;

pub type AfPwm2 = AlternateFunction<23, 0b11>;

pub type AfPwm3 = AlternateFunction<24, 0b11>;

pub type AfPwm4 = AlternateFunction<25, 0b11>;

pub type AfSpiDi = AlternateFunction<26, 0b00>;

pub type AfSpiDo = AlternateFunction<27, 0b11>;

pub type AfSpiClk = AlternateFunction<28, 0b11>;

pub type AfSpiEn1 = AlternateFunction<29, 0b11>;

pub type AfSpiEn2 = AlternateFunction<30, 0b11>;

/// The number of pins of the port.
pub const PIN_COUNT: u8 = 12;

/// A level to drive a pin to.
#[derive(Clone, Copy, Debug, PartialEq, Eq, Structural)]
pub enum PinState {
    Low,
    High,
}

/// A pin mode (type state), with the bits that program it: the pull
/// configuration and the function selector of the pin's mode register.
pub trait PinMode {
    /// The pull configuration of the mode.
    spec fn pupd_bits() -> u8;

    /// The function selector of the mode.
    spec fn pid_bits() -> u8;

    /// The pull configuration of the mode.
    fn pupd() -> (bits: u8)
        ensures
            bits == Self::pupd_bits(),
    ;

    /// The function selector of the mode.
    fn pid() -> (bits: u8)
        ensures
            bits == Self::pid_bits(),
    ;
}

impl PinMode for Disconnected {
    open spec fn pupd_bits() -> u8 {
        0b10
    }

    open spec fn pid_bits() -> u8 {
        0
    }

    fn pupd() -> (bits: u8) {
        0b10
    }

    fn pid() -> (bits: u8) {
        0
    }
}

impl PinMode for Input<Floating> {
    open spec fn pupd_bits() -> u8 {
        0b00
    }

    open spec fn pid_bits() -> u8 {
        0
    }

    fn pupd() -> (bits: u8) {
        0b00
    }

    fn pid() -> (bits: u8) {
        0
    }
}

impl PinMode for Input<PullUp> {
    open spec fn pupd_bits() -> u8 {
        0b01
    }

    open spec fn pid_bits() -> u8 {
        0
    }

    fn pupd() -> (bits: u8) {
        0b01
    }

    fn pid() -> (bits: u8) {
        0
    }
}

impl PinMode for Input<PullDown> {
    open spec fn pupd_bits() -> u8 {
        0b10
    }

    open spec fn pid_bits() -> u8 {
        0
    }

    fn pupd() -> (bits: u8) {
        0b10
    }

    fn pid() -> (bits: u8) {
        0
    }
}

impl PinMode for Output {
    open spec fn pupd_bits() -> u8 {
        0b11
    }

    open spec fn pid_bits() -> u8 {
        0
    }

    fn pupd() -> (bits: u8) {
        0b11
    }

    fn pid() -> (bits: u8) {
        0
    }
}

impl<const PID: u8, const PUPD: u8> PinMode for AlternateFunction<PID, PUPD> {
    open spec fn pupd_bits() -> u8 {
        PUPD
    }

    open spec fn pid_bits() -> u8 {
        PID
    }

    fn pupd() -> (bits: u8) {
        PUPD
    }

    fn pid() -> (bits: u8) {
        PID
    }
}

/// The one write that programs a pin's mode register.
pub open spec fn mode_script(pin: u8, pupd: u8, pid: u8) -> Seq<Instr> {
    seq![overwrite(Field::Pupd(pin), pupd as u32), and(Field::Pid(pin), pid as u32)]
}

/// The write that programs a pin for the mode `M`.
pub open spec fn mode_script_of<M: PinMode>(pin: u8) -> Seq<Instr> {
    mode_script(pin, M::pupd_bits(), M::pid_bits())
}

/// The reset of a pin's mode register, which disconnects the pin.
pub open spec fn disconnect_script(pin: u8) -> Seq<Instr> {
    seq![Instr::Reset(Reg::P0Mode(pin))]
}

/// The bit of a pin in the port's data, set and reset registers.
pub open spec fn pin_bit(pin: u8) -> u32 {
    1u32 << pin
}

/// The strobe that drives a pin high or low. The set and the reset register
/// each change only the pins whose bits are written as one.
pub open spec fn level_script(pin: u8, high: bool) -> Seq<Instr> {
    seq![
        overwrite(
            if high {
                Field::P0Set
            } else {
                Field::P0Reset
            },
            pin_bit(pin),
        ),
    ]
}

/// The level that a state stands for.
pub open spec fn is_high_state(state: PinState) -> bool {
    state == PinState::High
}

/// Whether a pin is low in a word read from the port data register.
pub open spec fn low_in(data: u32, pin: u8) -> bool {
    data & pin_bit(pin) == 0
}

/// Whether the mode register of `pin` holds the bits of the mode `M`.
pub open spec fn programmed_as<M: PinMode>(history: Seq<Instr>, pin: u8) -> bool {
    reading(history, Field::Pupd(pin)) == M::pupd_bits() && reading(history, Field::Pid(pin))
        == M::pid_bits()
}

pub(crate) fn record_mode(pin: u8, pupd: u8, pid: u8, script: &mut Script)
    ensures
        final(script)@ == old(script)@ + mode_script(pin, pupd, pid),
{
    script.overwrite(Field::Pupd(pin), pupd as u32);
    script.and(Field::Pid(pin), pid as u32);
    let ghost s = mode_script(pin, pupd, pid);
    assert(old(script)@.push(s[0]).push(s[1]) =~= old(script)@ + s);
}

pub(crate) fn record_disconnect(pin: u8, script: &mut Script)
    ensures
        final(script)@ == old(script)@ + disconnect_script(pin),
{
    script.reset(Reg::P0Mode(pin));
    assert(old(script)@.push(disconnect_script(pin)[0]) =~= old(script)@ + disconnect_script(pin));
}

pub(crate) fn record_level(pin: u8, high: bool, script: &mut Script)
    requires
        pin < PIN_COUNT,
    ensures
        final(script)@ == old(script)@ + level_script(pin, high),
{
    let mask: u32 = 1u32 << pin;
    if high {
        script.overwrite(Field::P0Set, mask);
    } else {
        script.overwrite(Field::P0Reset, mask);
    }
    assert(old(script)@.push(level_script(pin, high)[0]) =~= old(script)@ + level_script(
        pin,
        high,
    ));
}

pub(crate) fn reads_low(data: u32, pin: u8) -> (low: bool)
    requires
        pin < PIN_COUNT,
    ensures
        low == low_in(data, pin),
{
    data & (1u32 << pin) == 0
}

/// A pin of the port whose number is known only at run time. `MODE` is its
/// mode.
pub struct Pin<MODE> {
    pin: u8,
    _mode: PhantomData<MODE>,
}

impl<MODE> Pin<MODE> {
    #[verifier::type_invariant]
    spec fn on_port(self) -> bool {
        self.pin < PIN_COUNT
    }

    /// The number of the pin on the port.
    pub closed spec fn id(&self) -> u8 {
        self.pin
    }

    /// The handle of the pin with this number.
    pub closed spec fn numbered(pin: u8) -> Self {
        Self { pin, _mode: PhantomData }
    }

    pub(crate) fn new(pin: u8) -> (p: Self)
        requires
            pin < PIN_COUNT,
        ensures
            p.id() == pin,
            p == Self::numbered(pin),
    {
        Self { pin, _mode: PhantomData }
    }

    /// The number of the pin on the port: less than [`PIN_COUNT`].
    pub fn pin(&self) -> (n: u8)
        ensures
            n == self.id(),
            n < PIN_COUNT,
    {
        proof {
            use_type_invariant(self);
        }
        self.pin
    }

    /// The mode register of the pin.
    pub fn pin_mode(&self) -> (reg: Reg)
        ensures
            reg == Reg::P0Mode(self.id()),
    {
        Reg::P0Mode(self.pin)
    }

    /// Make the pin a floating input.
    pub fn into_floating_input(self, script: &mut Script) -> (p: Pin<Input<Floating>>)
        ensures
            p.id() == self.id(),
            final(script)@ == old(script)@ + mode_script_of::<Input<Floating>>(self.id()),
    {
        let n: u8 = self.pin();
        record_mode(n, 0b00, 0, script);
        Pin::new(n)
    }

    /// Make the pin an input with the pull-up resistor.
    pub fn into_pullup_input(self, script: &mut Script) -> (p: Pin<Input<PullUp>>)
        ensures
            p.id() == self.id(),
            final(script)@ == old(script)@ + mode_script_of::<Input<PullUp>>(self.id()),
    {
        let n: u8 = self.pin();
        record_mode(n, 0b01, 0, script);
        Pin::new(n)
    }

    /// Make the pin an input with the pull-down resistor.
    pub fn into_pulldown_input(self, script: &mut Script) -> (p: Pin<Input<PullDown>>)
        ensures
            p.id() == self.id(),
            final(script)@ == old(script)@ + mode_script_of::<Input<PullDown>>(self.id()),
    {
        let n: u8 = self.pin();
        record_mode(n, 0b10, 0, script);
        Pin::new(n)
    }

    /// As [`Pin::into_pullup_input`].
    pub fn into_pull_up_input(self, script: &mut Script) -> (p: Pin<Input<PullUp>>)
        ensures
            p.id() == self.id(),
            final(script)@ == old(script)@ + mode_script_of::<Input<PullUp>>(self.id()),
    {
        self.into_pullup_input(script)
    }

    /// As [`Pin::into_pulldown_input`].
    pub fn into_pull_down_input(self, script: &mut Script) -> (p: Pin<Input<PullDown>>)
        ensures
            p.id() == self.id(),
            final(script)@ == old(script)@ + mode_script_of::<Input<PullDown>>(self.id()),
    {
        self.into_pulldown_input(script)
    }

    /// Make the pin an input, without pull resistors.
    pub fn into_input(self, script: &mut Script) -> (p: Pin<Input<Floating>>)
        ensures
            p.id() == self.id(),
            final(script)@ == old(script)@ + mode_script_of::<Input<Floating>>(self.id()),
    {
        self.into_floating_input(script)
    }

    /// Make the pin a push-pull output. The level is set first, through the
    /// set or the reset register, and the mode after it, so that the pin
    /// never drives the wrong level.
    pub fn into_output(self, initial_output: PinState, script: &mut Script) -> (p: Pin<Output>)
        ensures
            p.id() == self.id(),
            final(script)@ == old(script)@ + level_script(
                self.id(),
                is_high_state(initial_output),
            ) + mode_script_of::<Output>(self.id()),
    {
        let n: u8 = self.pin();
        match initial_output {
            PinState::Low => record_level(n, false, script),
            PinState::High => record_level(n, true, script),
        }
        record_mode(n, 0b11, 0, script);
        Pin::new(n)
    }

    /// Hand the pin to the peripheral function `PID`, with the pull
    /// configuration `PUPD`.
    pub fn into_alternate<const PID: u8, const PUPD: u8>(self, script: &mut Script) -> (p: Pin<
        AlternateFunction<PID, PUPD>,
    >)
        ensures
            p.id() == self.id(),
            final(script)@ == old(script)@ + mode_script(self.id(), PUPD, PID),
    {
        let n: u8 = self.pin();
        record_mode(n, PUPD, PID, script);
        Pin::new(n)
    }

    /// Disconnect the pin: its mode register takes its reset value. A
    /// disconnected pin is neither input nor output.
    pub fn into_disconnected(self, script: &mut Script) -> (p: Pin<Disconnected>)
        ensures
            p.id() == self.id(),
            final(script)@ == old(script)@ + disconnect_script(self.id()),
    {
        let n: u8 = self.pin();
        record_disconnect(n, script);
        Pin::new(n)
    }
}

impl<MODE> Pin<Input<MODE>> {
    /// Whether the pin is high in `data`, the word read from
    /// [`Field::P0Data`].
    pub fn is_high(&self, data: u32) -> (high: bool)
        ensures
            high == !low_in(data, self.id()),
    {
        !self.is_low(data)
    }

    /// Whether the pin is low in `data`, the word read from
    /// [`Field::P0Data`].
    pub fn is_low(&self, data: u32) -> (low: bool)
        ensures
            low == low_in(data, self.id()),
    {
        reads_low(data, self.pin())
    }
}

impl Pin<Output> {
    /// Drive the pin high.
    pub fn set_high(&mut self, script: &mut Script)
        ensures
            final(self).id() == old(self).id(),
            final(script)@ == old(script)@ + level_script(old(self).id(), true),
    {
        record_level(self.pin(), true, script);
    }

    /// Drive the pin low.
    pub fn set_low(&mut self, script: &mut Script)
        ensures
            final(self).id() == old(self).id(),
            final(script)@ == old(script)@ + level_script(old(self).id(), false),
    {
        record_level(self.pin(), false, script);
    }

    /// Whether the pin is driven high in `data`, the word read from
    /// [`Field::P0Data`].
    pub fn is_set_high(&self, data: u32) -> (high: bool)
        ensures
            high == !low_in(data, self.id()),
    {
        !self.is_set_low(data)
    }

    /// Whether the pin is driven low in `data`, the word read from
    /// [`Field::P0Data`].
    pub fn is_set_low(&self, data: u32) -> (low: bool)
        ensures
            low == low_in(data, self.id()),
    {
        reads_low(data, self.pin())
    }
}

/// What [`Pin::mode`] records on the way from the mode `A` to the mode `M`:
/// the write that programs `M`, unless the two modes are programmed by the
/// same bits.
pub open spec fn mode_change_script<A: PinMode, M: PinMode>(pin: u8) -> Seq<Instr> {
    if A::pupd_bits() == M::pupd_bits() && A::pid_bits() == M::pid_bits() {
        Seq::<Instr>::empty()
    } else {
        mode_script_of::<M>(pin)
    }
}

impl<MODE: PinMode> Pin<MODE> {
    /// Program the pin for the mode `M`, without changing the handle's type.
    /// The caller answers for the handle's type.
    pub(crate) fn mode<M: PinMode>(&mut self, script: &mut Script)
        ensures
            final(self).id() == old(self).id(),
            final(script)@ == old(script)@ + mode_change_script::<MODE, M>(old(self).id()),
    {
        let n: u8 = self.pin();
        if MODE::pupd() != M::pupd() || MODE::pid() != M::pid() {
            record_mode(n, M::pupd(), M::pid(), script);
        } else {
            assert(old(script)@ + Seq::<Instr>::empty() =~= old(script)@);
        }
    }

    /// Put the pin into the mode `M`.
    pub fn into_mode<M: PinMode>(self, script: &mut Script) -> (p: Pin<M>)
        ensures
            p.id() == self.id(),
            final(script)@ == old(script)@ + mode_change_script::<MODE, M>(self.id()),
    {
        let mut pin = self;
        pin.mode::<M>(script);
        Pin::new(pin.pin())
    }

    /// Put the pin into the mode `M` for the time of one call of `f`: `f`
    /// gets a handle of the mode `M` and the script, and when it has returned
    /// the write that programs the mode `MODE` is recorded again, whatever
    /// `f` has recorded.
    pub fn with_mode<M: PinMode, F: FnOnce(&mut Pin<M>, &mut Script) -> R, R>(
        &mut self,
        script: &mut Script,
        f: F,
    ) -> (out: R)
        requires
            forall|p: &mut Pin<M>, s: &mut Script|
                (*p).id() == old(self).id() ==> call_requires(f, (p, s)),
        ensures
            final(self).id() == old(self).id(),
            exists|p: &mut Pin<M>, s: &mut Script|
                (*p).id() == old(self).id() && (*s)@ == old(script)@ + mode_change_script::<
                    MODE,
                    M,
                >(old(self).id()) && #[trigger] call_ensures(f, (p, s), out) && final(script)@
                    == (*final(s))@ + mode_script_of::<MODE>(old(self).id()),
    {
        let n: u8 = self.pin();
        self.mode::<M>(script);
        let mut witness: Pin<M> = Pin::new(n);
        let out = f(&mut witness, script);
        record_mode(n, MODE::pupd(), MODE::pid(), script);
        out
    }

    /// [`Pin::with_mode`] for a floating input.
    pub fn with_input<F: FnOnce(&mut Pin<Input<Floating>>, &mut Script) -> R, R>(
        &mut self,
        script: &mut Script,
        f: F,
    ) -> (out: R)
        requires
            forall|p: &mut Pin<Input<Floating>>, s: &mut Script|
                (*p).id() == old(self).id() ==> call_requires(f, (p, s)),
        ensures
            final(self).id() == old(self).id(),
            exists|p: &mut Pin<Input<Floating>>, s: &mut Script|
                (*p).id() == old(self).id() && (*s)@ == old(script)@ + mode_change_script::<
                    MODE,
                    Input<Floating>,
                >(old(self).id()) && #[trigger] call_ensures(f, (p, s), out) && final(script)@
                    == (*final(s))@ + mode_script_of::<MODE>(old(self).id()),
    {
        self.with_mode::<Input<Floating>, F, R>(script, f)
    }

    /// [`Pin::with_mode`] for the analog function.
    pub fn with_analog<F: FnOnce(&mut Pin<AfAdc>, &mut Script) -> R, R>(
        &mut self,
        script: &mut Script,
        f: F,
    ) -> (out: R)
        requires
            forall|p: &mut Pin<AfAdc>, s: &mut Script|
                (*p).id() == old(self).id() ==> call_requires(f, (p, s)),
        ensures
            final(self).id() == old(self).id(),
            exists|p: &mut Pin<AfAdc>, s: &mut Script|
                (*p).id() == old(self).id() && (*s)@ == old(script)@ + mode_change_script::<
                    MODE,
                    AfAdc,
                >(old(self).id()) && #[trigger] call_ensures(f, (p, s), out) && final(script)@
                    == (*final(s))@ + mode_script_of::<MODE>(old(self).id()),
    {
        self.with_mode::<AfAdc, F, R>(script, f)
    }

    /// [`Pin::with_mode`] for a push-pull output. The level that the pin
    /// drives is the one that the port data holds for it.
    pub fn with_push_pull_output<F: FnOnce(&mut Pin<Output>, &mut Script) -> R, R>(
        &mut self,
        script: &mut Script,
        f: F,
    ) -> (out: R)
        requires
            forall|p: &mut Pin<Output>, s: &mut Script|
                (*p).id() == old(self).id() ==> call_requires(f, (p, s)),
        ensures
            final(self).id() == old(self).id(),
            exists|p: &mut Pin<Output>, s: &mut Script|
                (*p).id() == old(self).id() && (*s)@ == old(script)@ + mode_change_script::<
                    MODE,
                    Output,
                >(old(self).id()) && #[trigger] call_ensures(f, (p, s), out) && final(script)@
                    == (*final(s))@ + mode_script_of::<MODE>(old(self).id()),
    {
        self.with_mode::<Output, F, R>(script, f)
    }

    /// [`Pin::with_push_pull_output`], with the level set to `state` before
    /// the pin becomes an output.
    pub fn with_push_pull_output_in_state<F: FnOnce(&mut Pin<Output>, &mut Script) -> R, R>(
        &mut self,
        state: PinState,
        script: &mut Script,
        f: F,
    ) -> (out: R)
        requires
            forall|p: &mut Pin<Output>, s: &mut Script|
                (*p).id() == old(self).id() ==> call_requires(f, (p, s)),
        ensures
            final(self).id() == old(self).id(),
            exists|p: &mut Pin<Output>, s: &mut Script|
                (*p).id() == old(self).id() && (*s)@ == old(script)@ + level_script(
                    old(self).id(),
                    is_high_state(state),
                ) + mode_change_script::<MODE, Output>(old(self).id()) && #[trigger] call_ensures(
                    f,
                    (p, s),
                    out,
                ) && final(script)@ == (*final(s))@ + mode_script_of::<MODE>(old(self).id()),
    {
        let n: u8 = self.pin();
        match state {
            PinState::Low => record_level(n, false, script),
            PinState::High => record_level(n, true, script),
        }
        self.with_mode::<Output, F, R>(script, f)
    }
}

/// The mode write programs the bits of the mode in the pin's register and
/// leaves the mode registers of the other pins alone.
pub proof fn lemma_mode_script_programs(history: Seq<Instr>, pin: u8, pupd: u8, pid: u8, other: u8)
    requires
        other != pin,
    ensures
        reading(history + mode_script(pin, pupd, pid), Field::Pupd(pin)) == pupd,
        reading(history + mode_script(pin, pupd, pid), Field::Pid(pin)) == pid,
        reading(history + mode_script(pin, pupd, pid), Field::Pupd(other)) == reading(
            history,
            Field::Pupd(other),
        ),
        reading(history + mode_script(pin, pupd, pid), Field::Pid(other)) == reading(
            history,
            Field::Pid(other),
        ),
{
    let s = mode_script(pin, pupd, pid);
    assert(history + s =~= history.push(s[0]).push(s[1]));
    lemma_reading_push(history, s[0], Field::Pupd(pin));
    lemma_reading_push(history.push(s[0]), s[1], Field::Pupd(pin));
    lemma_reading_push(history, s[0], Field::Pid(pin));
    lemma_reading_push(history.push(s[0]), s[1], Field::Pid(pin));
    lemma_reading_push(history, s[0], Field::Pupd(other));
    lemma_reading_push(history.push(s[0]), s[1], Field::Pupd(other));
    lemma_reading_push(history, s[0], Field::Pid(other));
    lemma_reading_push(history.push(s[0]), s[1], Field::Pid(other));
}

/// After a transition into the mode `M`, the pin's mode register holds
/// exactly the bits of `M`: the handle's type and the register agree.
pub proof fn lemma_transition_programs_mode<M: PinMode>(history: Seq<Instr>, pin: u8)
    ensures
        programmed_as::<M>(history + mode_script_of::<M>(pin), pin),
{
    lemma_mode_script_programs(
        history,
        pin,
        M::pupd_bits(),
        M::pid_bits(),
        if pin == 0 {
            1u8
        } else {
            0u8
        },
    );
}

/// Disconnecting leaves the bits of the disconnected mode in the register.
pub proof fn lemma_disconnect_programs_mode(history: Seq<Instr>, pin: u8)
    ensures
        programmed_as::<Disconnected>(history + disconnect_script(pin), pin),
{
    let s = disconnect_script(pin);
    assert(history + s =~= history.push(s[0]));
    lemma_reading_push(history, s[0], Field::Pupd(pin));
    lemma_reading_push(history, s[0], Field::Pid(pin));
}

/// Round trip: from the mode `A` into the mode `B` and back into `A`, the
/// pin's mode register holds again what it held before.
pub proof fn lemma_round_trip<A: PinMode, B: PinMode>(history: Seq<Instr>, pin: u8)
    requires
        programmed_as::<A>(history, pin),
    ensures
        reading(
            history + mode_script_of::<B>(pin) + mode_script_of::<A>(pin),
            Field::Pupd(pin),
        ) == reading(history, Field::Pupd(pin)),
        reading(history + mode_script_of::<B>(pin) + mode_script_of::<A>(pin), Field::Pid(pin))
            == reading(history, Field::Pid(pin)),
        programmed_as::<B>(history + mode_script_of::<B>(pin), pin),
{
    lemma_transition_programs_mode::<B>(history, pin);
    lemma_transition_programs_mode::<A>(history + mode_script_of::<B>(pin), pin);
}

/// A change of mode that starts from a register that holds the bits of the
/// handle's mode leaves the bits of the new mode there.
pub proof fn lemma_mode_change_programs_mode<A: PinMode, M: PinMode>(history: Seq<Instr>, pin: u8)
    requires
        programmed_as::<A>(history, pin),
    ensures
        programmed_as::<M>(history + mode_change_script::<A, M>(pin), pin),
{
    if A::pupd_bits() == M::pupd_bits() && A::pid_bits() == M::pid_bits() {
        assert(history + Seq::<Instr>::empty() =~= history);
    } else {
        lemma_transition_programs_mode::<M>(history, pin);
    }
}

/// Scoped reconfiguration restores the mode: whatever was recorded before
/// the closing write of [`Pin::with_mode`], after it the pin's mode register
/// holds the bits of the mode `MODE` again, on any device.
pub proof fn lemma_scoped_mode_restores<MODE: PinMode>(
    history: Seq<Instr>,
    recorded: Seq<Instr>,
    pin: u8,
)
    ensures
        programmed_as::<MODE>(history + (recorded + mode_script_of::<MODE>(pin)), pin),
{
    lemma_transition_programs_mode::<MODE>(history + recorded, pin);
    assert(history + (recorded + mode_script_of::<MODE>(pin)) =~= (history + recorded)
        + mode_script_of::<MODE>(pin));
}

/// A masked bit reads back as it was driven.
pub proof fn lemma_bit_set_and_cleared(data: u32, pin: u8)
    requires
        pin < 32,
    ensures
        (data | (1u32 << pin)) & (1u32 << pin) != 0,
        (data & !(1u32 << pin)) & (1u32 << pin) == 0,
{
    assert((data | (1u32 << pin)) & (1u32 << pin) != 0) by (bit_vector)
        requires
            pin < 32,
    ;
    assert((data & !(1u32 << pin)) & (1u32 << pin) == 0) by (bit_vector)
        requires
            pin < 32,
    ;
}

/// Driving a pin shows in the port data: after the strobe the pin reads
/// high if it was driven high, and low if it was driven low.
pub proof fn lemma_drive_reads_back(history: Seq<Instr>, pin: u8, high: bool)
    requires
        pin < PIN_COUNT,
    ensures
        low_in(reading(history + level_script(pin, high), Field::P0Data), pin) == !high,
{
    let s = level_script(pin, high);
    assert(history + s =~= history.push(s[0]));
    lemma_reading_push(history, s[0], Field::P0Data);
    lemma_bit_set_and_cleared(reading(history, Field::P0Data), pin);
}

/// Programming a pin's mode does not change the port data.
pub proof fn lemma_mode_keeps_level(history: Seq<Instr>, pin: u8, pupd: u8, pid: u8)
    ensures
        reading(history + mode_script(pin, pupd, pid), Field::P0Data) == reading(
            history,
            Field::P0Data,
        ),
{
    let s = mode_script(pin, pupd, pid);
    assert(history + s =~= history.push(s[0]).push(s[1]));
    lemma_reading_push(history, s[0], Field::P0Data);
    lemma_reading_push(history.push(s[0]), s[1], Field::P0Data);
}

} // verus!
