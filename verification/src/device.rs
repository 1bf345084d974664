//! What a script does to the register file.
//!
//! The model is the memory that the drivers assume: a field holds what was
//! last put there, an overwritten register resets the fields that were not
//! named, and a few strobe registers act on a field of another register. The
//! laws of the drivers are stated over it.

use crate::poll::ends_wait;
use crate::regs::{reg_of, reset_of, updated, Access, Field, Instr, Update};
use crate::script::Script;
use vstd::prelude::*;

verus! {

/// What storing `word` in the strobe field `written` does to the field
/// `field`, which holds `current`: the port's set and reset registers act on
/// the port data, the interrupt controller's enable and pending strobes on the
/// vectors that it holds.
pub open spec fn strobed(written: Field, word: u32, field: Field, current: u32) -> u32 {
    if written == Field::P0Set && field == Field::P0Data {
        current | word
    } else if written == Field::P0Reset && field == Field::P0Data {
        current & !word
    } else if written == Field::NvicIser && field == Field::IrqEnabled {
        current | word
    } else if written == Field::NvicIcer && field == Field::IrqEnabled {
        current & !word
    } else if written == Field::NvicIcpr && field == Field::IrqPending {
        current & !word
    } else {
        current
    }
}

/// The value of `field` after `target` was updated, from the value before.
pub open spec fn put(target: Field, update: Update, field: Field, current: u32) -> u32 {
    if target == field {
        updated(update, current)
    } else {
        match update {
            Update::Store(word) => strobed(target, word, field, current),
            _ => current,
        }
    }
}

/// The value of `field` after one instruction, from the value before.
pub open spec fn performed(instr: Instr, field: Field, current: u32) -> u32 {
    match instr {
        Instr::Put { access: Access::Write, field: target, update, masked } => put(
            target,
            update,
            field,
            if reg_of(field) == reg_of(target) {
                reset_of(field)
            } else {
                current
            },
        ),
        Instr::Put { access: Access::Modify, field: target, update, masked } => put(
            target,
            update,
            field,
            current,
        ),
        Instr::And { field: target, update } => put(target, update, field, current),
        Instr::Reset(reg) => if reg_of(field) == reg {
            reset_of(field)
        } else {
            current
        },
        _ => current,
    }
}

/// The value of `field` after a script, from the value `start` before it.
pub open spec fn value_after(script: Seq<Instr>, field: Field, start: u32) -> u32
    decreases script.len(),
{
    if script.len() == 0 {
        start
    } else {
        performed(script.last(), field, value_after(script.drop_last(), field, start))
    }
}

/// The value of `field` once `script` has run on a device fresh from reset.
pub open spec fn reading(script: Seq<Instr>, field: Field) -> u32 {
    value_after(script, field, reset_of(field))
}

/// Whether `instr` is a wait that what its field holds after `history`
/// does not end.
pub open spec fn blocked(history: Seq<Instr>, instr: Instr) -> bool {
    match instr {
        Instr::WaitSet(field) => !ends_wait(instr, reading(history, field)),
        Instr::WaitClear(field) => !ends_wait(instr, reading(history, field)),
        _ => false,
    }
}

/// Running one more instruction applies it to what the script left.
pub proof fn lemma_value_after_push(script: Seq<Instr>, instr: Instr, field: Field, start: u32)
    ensures
        value_after(script.push(instr), field, start) == performed(
            instr,
            field,
            value_after(script, field, start),
        ),
{
    assert(script.push(instr).drop_last() =~= script);
}

/// A script run after another starts from what the first one left.
pub proof fn lemma_value_after_concat(first: Seq<Instr>, second: Seq<Instr>, field: Field, start: u32)
    ensures
        value_after(first + second, field, start) == value_after(
            second,
            field,
            value_after(first, field, start),
        ),
    decreases second.len(),
{
    if second.len() == 0 {
        assert(first + second =~= first);
    } else {
        lemma_value_after_concat(first, second.drop_last(), field, start);
        assert((first + second).drop_last() =~= first + second.drop_last());
    }
}

/// What a field holds after one more instruction.
pub proof fn lemma_reading_push(history: Seq<Instr>, instr: Instr, field: Field)
    ensures
        reading(history.push(instr), field) == performed(instr, field, reading(history, field)),
        reading(history + seq![instr], field) == performed(instr, field, reading(history, field)),
{
    lemma_value_after_push(history, instr, field, reset_of(field));
    assert(history + seq![instr] =~= history.push(instr));
}

/// What a field holds after a script that follows a history.
pub proof fn lemma_reading_concat(history: Seq<Instr>, script: Seq<Instr>, field: Field)
    ensures
        reading(history + script, field) == value_after(script, field, reading(history, field)),
{
    lemma_value_after_concat(history, script, field, reset_of(field));
}

/// Whether storing a word in `field` acts on another field.
pub open spec fn is_strobe(field: Field) -> bool {
    field == Field::P0Set || field == Field::P0Reset || field == Field::NvicIser || field
        == Field::NvicIcer || field == Field::NvicIcpr
}

/// Overwriting a register stores the value in the field that is named and
/// gives every other field of the register its reset value; the fields of
/// other registers keep what they hold, unless the field is a strobe.
pub proof fn lemma_overwrite(history: Seq<Instr>, field: Field, value: u32, other: Field)
    requires
        other != field,
    ensures
        reading(history.push(crate::regs::overwrite(field, value)), field) == value,
        reg_of(other) == reg_of(field) ==> reading(
            history.push(crate::regs::overwrite(field, value)),
            other,
        ) == reset_of(other),
        reg_of(other) != reg_of(field) && !is_strobe(field) ==> reading(
            history.push(crate::regs::overwrite(field, value)),
            other,
        ) == reading(history, other),
{
    lemma_reading_push(history, crate::regs::overwrite(field, value), field);
    lemma_reading_push(history, crate::regs::overwrite(field, value), other);
}

/// A read-modify-write changes the field that is named, from what it held,
/// and no other field.
pub proof fn lemma_modify(history: Seq<Instr>, field: Field, update: Update, other: Field)
    requires
        other != field,
        !is_strobe(field),
    ensures
        reading(history.push(crate::regs::modify(field, update)), field) == updated(
            update,
            reading(history, field),
        ),
        reading(history.push(crate::regs::modify(field, update)), other) == reading(
            history,
            other,
        ),
{
    lemma_reading_push(history, crate::regs::modify(field, update), field);
    lemma_reading_push(history, crate::regs::modify(field, update), other);
}

/// Waiting, reading for effect and the operations of the core change no
/// field.
pub proof fn lemma_no_effect(history: Seq<Instr>, instr: Instr, field: Field)
    requires
        instr is WaitSet || instr is WaitClear || instr is Touch || instr is Cpu,
    ensures
        reading(history.push(instr), field) == reading(history, field),
{
    lemma_reading_push(history, instr, field);
}

/// Whether storing a word in the strobe field `written` acts on `field`.
pub open spec fn strobes(written: Field, field: Field) -> bool {
    ((written == Field::P0Set || written == Field::P0Reset) && field == Field::P0Data) || ((
    written == Field::NvicIser || written == Field::NvicIcer) && field == Field::IrqEnabled) || (
    written == Field::NvicIcpr && field == Field::IrqPending)
}

/// Whether an instruction can change what a field holds.
pub open spec fn affects(instr: Instr, field: Field) -> bool {
    match instr {
        Instr::Put { access, field: target, update, masked } => target == field || strobes(
            target,
            field,
        ) || (access == Access::Write && reg_of(target) == reg_of(field)),
        Instr::And { field: target, update } => target == field || strobes(target, field),
        Instr::Reset(reg) => reg_of(field) == reg,
        _ => false,
    }
}

/// Whether an instruction stores `value` in `field`.
pub open spec fn stores(instr: Instr, field: Field, value: u32) -> bool {
    match instr {
        Instr::Put { access, field: target, update, masked } => target == field && update
            == Update::Store(value),
        Instr::And { field: target, update } => target == field && update == Update::Store(value),
        _ => false,
    }
}

/// A script in which nothing affects a field leaves the field as it was.
pub proof fn lemma_unaffected(history: Seq<Instr>, script: Seq<Instr>, field: Field)
    requires
        forall|i: int| 0 <= i < script.len() ==> !affects(#[trigger] script[i], field),
    ensures
        reading(history + script, field) == reading(history, field),
    decreases script.len(),
{
    if script.len() == 0 {
        assert(history + script =~= history);
    } else {
        lemma_unaffected(history, script.drop_last(), field);
        assert(history + script =~= (history + script.drop_last()).push(script.last()));
        lemma_reading_push(history + script.drop_last(), script.last(), field);
    }
}

/// A field holds what the last instruction that affects it stored there.
pub proof fn lemma_last_store(
    history: Seq<Instr>,
    script: Seq<Instr>,
    at: int,
    field: Field,
    value: u32,
)
    requires
        0 <= at < script.len(),
        stores(script[at], field, value),
        forall|i: int| at < i < script.len() ==> !affects(#[trigger] script[i], field),
    ensures
        reading(history + script, field) == value,
{
    let head = script.take(at);
    let tail = script.skip(at + 1);
    assert(history + script =~= (history + head).push(script[at]) + tail);
    lemma_reading_push(history + head, script[at], field);
    assert forall|i: int| 0 <= i < tail.len() implies !affects(#[trigger] tail[i], field) by {
        assert(tail[i] == script[at + 1 + i]);
    }
    lemma_unaffected((history + head).push(script[at]), tail, field);
}

/// A device as the drivers see it: fresh from reset, then whatever was
/// performed on it. Its view is the history of instructions.
pub struct Device {
    history: Vec<Instr>,
}

impl View for Device {
    type V = Seq<Instr>;

    closed spec fn view(&self) -> Seq<Instr> {
        self.history@
    }
}

fn perform(instr: Instr, field: Field, current: u32) -> (value: u32)
    ensures
        value == performed(instr, field, current),
{
    match instr {
        Instr::Put { access, field: target, update, masked } => {
            let base: u32 = match access {
                Access::Write => if field.reg() == target.reg() {
                    field.reset_value()
                } else {
                    current
                },
                Access::Modify => current,
            };
            put_field(target, update, field, base)
        },
        Instr::And { field: target, update } => put_field(target, update, field, current),
        Instr::Reset(reg) => if field.reg() == reg {
            field.reset_value()
        } else {
            current
        },
        _ => current,
    }
}

fn put_field(target: Field, update: Update, field: Field, current: u32) -> (value: u32)
    ensures
        value == put(target, update, field, current),
{
    if target == field {
        update.apply(current)
    } else {
        match update {
            Update::Store(word) => {
                if target == Field::P0Set && field == Field::P0Data {
                    current | word
                } else if target == Field::P0Reset && field == Field::P0Data {
                    current & !word
                } else if target == Field::NvicIser && field == Field::IrqEnabled {
                    current | word
                } else if target == Field::NvicIcer && field == Field::IrqEnabled {
                    current & !word
                } else if target == Field::NvicIcpr && field == Field::IrqPending {
                    current & !word
                } else {
                    current
                }
            },
            _ => current,
        }
    }
}

impl Device {
    /// A device fresh from reset.
    pub fn new() -> (device: Device)
        ensures
            device@ == Seq::<Instr>::empty(),
    {
        Device { history: Vec::new() }
    }

    /// What the field holds now.
    pub fn read(&self, field: Field) -> (value: u32)
        ensures
            value == reading(self@, field),
    {
        let mut value: u32 = field.reset_value();
        let mut i: usize = 0;
        while i < self.history.len()
            invariant
                i <= self.history@.len(),
                value == value_after(self.history@.take(i as int), field, reset_of(field)),
            decreases self.history@.len() - i,
        {
            proof {
                lemma_value_after_push(
                    self.history@.take(i as int),
                    self.history@[i as int],
                    field,
                    reset_of(field),
                );
                assert(self.history@.take(i as int).push(self.history@[i as int])
                    =~= self.history@.take(i + 1));
            }
            value = perform(self.history[i], field, value);
            i += 1;
        }
        proof {
            assert(self.history@.take(i as int) =~= self.history@);
        }
        value
    }

    /// The hardware changes a field by itself: a status bit settles, a
    /// conversion ends.
    pub fn latch(&mut self, field: Field, value: u32)
        ensures
            final(self)@ == old(self)@.push(crate::regs::modify(field, Update::Store(value))),
            reading(final(self)@, field) == value,
    {
        proof {
            lemma_value_after_push(
                self@,
                crate::regs::modify(field, Update::Store(value)),
                field,
                reset_of(field),
            );
        }
        self.history.push(
            Instr::Put { access: Access::Modify, field, update: Update::Store(value), masked: false },
        );
    }

    /// Perform a script, in order, up to the first wait whose condition does
    /// not hold. Returns how many instructions were performed: all of them,
    /// or the index of the wait that blocks.
    pub fn run(&mut self, script: &Script) -> (done: usize)
        ensures
            done <= script@.len(),
            final(self)@ == old(self)@ + script@.take(done as int),
            forall|i: int|
                0 <= i < done ==> !blocked(old(self)@ + script@.take(i), #[trigger] script@[i]),
            done < script@.len() ==> blocked(final(self)@, script@[done as int]),
    {
        let mut done: usize = 0;
        let n: usize = script.len();
        proof {
            assert(old(self)@ + script@.take(0) =~= old(self)@);
        }
        while done < n
            invariant
                n == script@.len(),
                done <= n,
                self@ == old(self)@ + script@.take(done as int),
                forall|i: int|
                    0 <= i < done ==> !blocked(old(self)@ + script@.take(i), #[trigger] script@[i]),
            ensures
                done <= n,
                self@ == old(self)@ + script@.take(done as int),
                forall|i: int|
                    0 <= i < done ==> !blocked(old(self)@ + script@.take(i), #[trigger] script@[i]),
                done < n ==> blocked(self@, script@[done as int]),
            decreases n - done,
        {
            match script.get(done) {
                Some(instr) => {
                    let stuck: bool = match instr {
                        Instr::WaitSet(field) => self.read(field) == 0,
                        Instr::WaitClear(field) => self.read(field) != 0,
                        _ => false,
                    };
                    if stuck {
                        break ;
                    }
                    proof {
                        assert((old(self)@ + script@.take(done as int)).push(instr) =~= old(self)@
                            + script@.take(done + 1));
                    }
                    self.history.push(instr);
                    done += 1;
                },
                None => {
                    break ;
                },
            }
        }
        done
    }
}

} // verus!
