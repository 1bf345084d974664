//! Waiting with a limit.
//!
//! A wait instruction polls a field until it settles. How often it may poll
//! is for whoever performs the script to say; what follows from a poll is
//! decided here, so that a field that never settles ends in an error and not
//! in a hang.

use crate::regs::Instr;
use vstd::prelude::*;

verus! {

/// Whether a value that a wait has read ends the wait. Any value ends what
/// is no wait.
pub open spec fn ends_wait(instr: Instr, value: u32) -> bool {
    match instr {
        Instr::WaitSet(_) => value != 0,
        Instr::WaitClear(_) => value == 0,
        _ => true,
    }
}

/// What follows from one poll.
#[derive(Clone, Copy, Debug, PartialEq, Eq, Structural)]
pub enum Polled {
    /// The field has settled: go on with the script.
    Settled,
    /// The field has not settled: poll again.
    Again,
    /// The field has not settled and no poll is left: give up.
    TimedOut,
}

/// A wait of the script was given up.
#[derive(Clone, Copy, Debug, PartialEq, Eq, Structural)]
pub struct Stalled {
    /// The index of the wait in the script.
    pub at: usize,
}

/// How often one wait may still poll again. Its view is that number, or
/// `None` where there is no limit.
pub struct Budget {
    left: Option<u32>,
}

impl View for Budget {
    type V = Option<u32>;

    closed spec fn view(&self) -> Option<u32> {
        self.left
    }
}

/// What a poll comes to: the verdict, and the budget after it. A settled
/// field costs nothing; each other poll costs one, and the poll that finds
/// nothing left gives up.
pub open spec fn poll(budget: Option<u32>, instr: Instr, value: u32) -> (Polled, Option<u32>) {
    if ends_wait(instr, value) {
        (Polled::Settled, budget)
    } else {
        match budget {
            None => (Polled::Again, budget),
            Some(left) => if left == 0 {
                (Polled::TimedOut, budget)
            } else {
                (Polled::Again, Some((left - 1) as u32))
            },
        }
    }
}

impl Budget {
    /// A budget of `polls` repeated polls, or without limit.
    pub fn new(polls: Option<u32>) -> (budget: Budget)
        ensures
            budget@ == polls,
    {
        Budget { left: polls }
    }

    /// Take note of the value that a poll of `instr` has read.
    pub fn observe(&mut self, instr: Instr, value: u32) -> (polled: Polled)
        ensures
            (polled, final(self)@) == poll(old(self)@, instr, value),
    {
        let settled: bool = match instr {
            Instr::WaitSet(_) => value != 0,
            Instr::WaitClear(_) => value == 0,
            _ => true,
        };
        if settled {
            Polled::Settled
        } else {
            match self.left {
                None => Polled::Again,
                Some(left) => {
                    if left == 0 {
                        Polled::TimedOut
                    } else {
                        self.left = Some(left - 1);
                        Polled::Again
                    }
                },
            }
        }
    }
}

/// What is left of a budget of `polls` after `count` polls that did not
/// settle, none of which gave up.
pub open spec fn left_after(polls: u32, count: nat) -> Option<u32>
    recommends
        count <= polls,
{
    Some((polls - count) as u32)
}

/// A wait is bounded by its budget: a field that does not settle is polled
/// again as long as something is left, each time for one poll less, and the
/// poll after the last gives up. With a budget of `polls`, that is the poll
/// number `polls + 1`.
pub proof fn lemma_wait_is_bounded(polls: u32, count: nat, instr: Instr, value: u32)
    requires
        count <= polls,
        !ends_wait(instr, value),
    ensures
        count < polls ==> poll(left_after(polls, count), instr, value) == (
            Polled::Again,
            left_after(polls, count + 1),
        ),
        count == polls ==> poll(left_after(polls, count), instr, value).0 == Polled::TimedOut,
{
}

/// A settled field ends the wait at once, whatever is left of the budget,
/// and a wait without limit never gives up.
pub proof fn lemma_settled_or_unlimited(budget: Option<u32>, instr: Instr, value: u32)
    ensures
        ends_wait(instr, value) ==> poll(budget, instr, value) == (Polled::Settled, budget),
        !ends_wait(instr, value) ==> poll(None, instr, value) == (Polled::Again, None::<u32>),
{
}

} // verus!
