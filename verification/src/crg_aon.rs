//! The always-on clock and reset generator.

use crate::pac::CRG_AON;
use crate::regs::{bit, overwrite, Field, Instr};
use crate::script::{word, Script};
use vstd::prelude::*;

pub mod sleep;

verus! {

/// Turns the generator's token into its driver.
pub trait CrgAonExt {
    /// The driver, in place of the token.
    fn constrain(self) -> CrgAon;
}

impl CrgAonExt for CRG_AON {
    fn constrain(self) -> (driver: CrgAon)
        ensures
            driver.token() == self,
    {
        CrgAon { crg_aon: self }
    }
}

/// Driver of the always-on clock and reset generator.
pub struct CrgAon {
    crg_aon: CRG_AON,
}

/// The write that sets the pad latch and nothing else in its register.
pub open spec fn pad_latch_script(state: bool) -> Seq<Instr> {
    seq![overwrite(Field::PadLatchEn, bit(state))]
}

impl CrgAon {
    /// The token that the driver was made from, and holds.
    pub closed spec fn token(&self) -> CRG_AON {
        self.crg_aon
    }

    /// Latch the pads, or let them follow their drivers.
    pub fn set_pad_latch_en(&mut self, state: bool, script: &mut Script)
        ensures
            final(script)@ == old(script)@ + pad_latch_script(state),
    {
        script.overwrite(Field::PadLatchEn, word(state));
        assert(old(script)@.push(pad_latch_script(state)[0]) =~= old(script)@ + pad_latch_script(
            state,
        ));
    }
}

} // verus!
