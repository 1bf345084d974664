//! The clock gates and bus dividers, as a controller that is made with `new`.

use crate::crg_top::{amba_script, gate_of, gate_script, record_amba, record_gate};
use crate::pac::CRG_TOP;
use crate::script::Script;
use vstd::prelude::*;

pub use crate::crg_top::PeripheralClock;

verus! {

/// Controller of the peripheral clocks.
pub struct ClockController {
    crg_top: CRG_TOP,
}

impl ClockController {
    /// The controller, in place of the token, which it holds from here on.
    pub fn new(crg_top: CRG_TOP) -> (controller: Self)
        ensures
            controller.token() == crg_top,
    {
        Self { crg_top }
    }

    /// The token that the controller was made from, and holds.
    pub closed spec fn token(&self) -> CRG_TOP {
        self.crg_top
    }

    /// Switch a peripheral clock on or off.
    pub fn set_peripheral_clock_state(
        &mut self,
        clock: PeripheralClock,
        state: bool,
        script: &mut Script,
    )
        ensures
            final(script)@ == old(script)@ + gate_script(gate_of(clock), state),
    {
        record_gate(clock.gate(), state, script);
    }

    /// The slowest bus clocks: both dividers at 3.
    pub fn use_lowest_amba_clocks(&mut self, script: &mut Script)
        ensures
            final(script)@ == old(script)@ + amba_script(3),
    {
        record_amba(3, script);
    }

    /// The fastest bus clocks: both dividers at 0.
    pub fn use_highest_amba_clocks(&mut self, script: &mut Script)
        ensures
            final(script)@ == old(script)@ + amba_script(0),
    {
        record_amba(0, script);
    }
}

} // verus!
