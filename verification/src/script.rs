//! The recorder that every driver writes to.

use crate::regs::{reg_of, Access, CpuOp, Field, Instr, Reg, Update};
use vstd::prelude::*;

verus! {

/// Whether `instr` goes on with the bus access that `first` began: `first`
/// begins an access, and `instr` names one more field of the same register.
pub open spec fn joins(first: Instr, instr: Instr) -> bool {
    match (first, instr) {
        (Instr::Put { field, .. }, Instr::And { field: more, .. }) => reg_of(more) == reg_of(
            field,
        ),
        _ => false,
    }
}

/// A sequence of instructions, in the order in which they are to be
/// performed. Its view is that sequence.
pub struct Script {
    instrs: Vec<Instr>,
}

impl View for Script {
    type V = Seq<Instr>;

    closed spec fn view(&self) -> Seq<Instr> {
        self.instrs@
    }
}

impl Script {
    /// The empty script.
    pub fn new() -> (script: Script)
        ensures
            script@ == Seq::<Instr>::empty(),
    {
        Script { instrs: Vec::new() }
    }

    /// The number of instructions.
    pub fn len(&self) -> (n: usize)
        ensures
            n == self@.len(),
    {
        self.instrs.len()
    }

    /// The instruction at `index`, or `None` past the end.
    pub fn get(&self, index: usize) -> (instr: Option<Instr>)
        ensures
            instr == if index < self@.len() {
                Some(self@[index as int])
            } else {
                None
            },
    {
        if index < self.instrs.len() {
            Some(self.instrs[index])
        } else {
            None
        }
    }

    /// Where the bus access ends that the instruction at `at` begins: the
    /// index after the last of the instructions that follow it and go on
    /// with its access. An instruction that begins no access ends with
    /// itself.
    pub fn access_end(&self, at: usize) -> (end: usize)
        requires
            at < self@.len(),
        ensures
            at < end <= self@.len(),
            forall|i: int| at < i < end ==> joins(self@[at as int], #[trigger] self@[i]),
            end < self@.len() ==> !joins(self@[at as int], self@[end as int]),
    {
        let len: usize = self.instrs.len();
        let first: Instr = self.instrs[at];
        let mut end: usize = at + 1;
        while end < len
            invariant
                len == self.instrs@.len(),
                at < end <= self.instrs@.len(),
                first == self.instrs@[at as int],
                forall|i: int| at < i < end ==> joins(first, #[trigger] self.instrs@[i]),
            ensures
                at < end <= self.instrs@.len(),
                forall|i: int| at < i < end ==> joins(first, #[trigger] self.instrs@[i]),
                end < self.instrs@.len() ==> !joins(first, self.instrs@[end as int]),
            decreases self.instrs@.len() - end,
        {
            let goes_on: bool = match (first, self.instrs[end]) {
                (Instr::Put { field, .. }, Instr::And { field: more, .. }) => more.reg()
                    == field.reg(),
                _ => false,
            };
            if !goes_on {
                break ;
            }
            end += 1;
        }
        end
    }

    /// The instructions, handed over for execution.
    pub fn into_vec(self) -> (instrs: Vec<Instr>)
        ensures
            instrs@ == self@,
    {
        self.instrs
    }

    /// Append one instruction.
    pub fn push(&mut self, instr: Instr)
        ensures
            final(self)@ == old(self)@.push(instr),
    {
        self.instrs.push(instr);
    }

    /// Overwrite the register of `field`, storing `value` in the field.
    pub fn overwrite(&mut self, field: Field, value: u32)
        ensures
            final(self)@ == old(self)@.push(crate::regs::overwrite(field, value)),
    {
        self.push(
            Instr::Put { access: Access::Write, field, update: Update::Store(value), masked: false },
        );
    }

    /// As [`Script::overwrite`], with interrupts masked for the access.
    pub fn overwrite_masked(&mut self, field: Field, value: u32)
        ensures
            final(self)@ == old(self)@.push(crate::regs::overwrite_masked(field, value)),
    {
        self.push(
            Instr::Put { access: Access::Write, field, update: Update::Store(value), masked: true },
        );
    }

    /// Read, modify and write the register of `field`, updating the field.
    pub fn modify(&mut self, field: Field, update: Update)
        ensures
            final(self)@ == old(self)@.push(crate::regs::modify(field, update)),
    {
        self.push(Instr::Put { access: Access::Modify, field, update, masked: false });
    }

    /// As [`Script::modify`], with interrupts masked for the access.
    pub fn modify_masked(&mut self, field: Field, update: Update)
        ensures
            final(self)@ == old(self)@.push(crate::regs::modify_masked(field, update)),
    {
        self.push(Instr::Put { access: Access::Modify, field, update, masked: true });
    }

    /// Store `value` in one more field of the access in progress.
    pub fn and(&mut self, field: Field, value: u32)
        ensures
            final(self)@ == old(self)@.push(crate::regs::and(field, value)),
    {
        self.push(Instr::And { field, update: Update::Store(value) });
    }

    /// Give the register its reset value.
    pub fn reset(&mut self, reg: Reg)
        ensures
            final(self)@ == old(self)@.push(Instr::Reset(reg)),
    {
        self.push(Instr::Reset(reg));
    }

    /// Read the field for the effect of reading it.
    pub fn touch(&mut self, field: Field)
        ensures
            final(self)@ == old(self)@.push(Instr::Touch(field)),
    {
        self.push(Instr::Touch(field));
    }

    /// Wait until the field reads as not zero.
    pub fn wait_set(&mut self, field: Field)
        ensures
            final(self)@ == old(self)@.push(Instr::WaitSet(field)),
    {
        self.push(Instr::WaitSet(field));
    }

    /// Wait until the field reads as zero.
    pub fn wait_clear(&mut self, field: Field)
        ensures
            final(self)@ == old(self)@.push(Instr::WaitClear(field)),
    {
        self.push(Instr::WaitClear(field));
    }

    /// An operation of the core.
    pub fn cpu(&mut self, op: CpuOp)
        ensures
            final(self)@ == old(self)@.push(Instr::Cpu(op)),
    {
        self.push(Instr::Cpu(op));
    }
}

/// The register word of a flag.
pub fn word(flag: bool) -> (w: u32)
    ensures
        w == crate::regs::bit(flag),
{
    if flag {
        1
    } else {
        0
    }
}

} // verus!
