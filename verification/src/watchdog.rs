//! The system watchdog, as a controller that is made with `new`.

use crate::pac::SYS_WDOG;
use crate::regs::{overwrite, Field, Instr};
use crate::script::Script;
use crate::sys_wdog::reset_on_expiry_script;
use vstd::prelude::*;

verus! {

/// The period with which a watchdog controller starts out.
pub const WATCHDOG_DEFAULT_PERIOD: u8 = 0xC8;

/// Controller of the system watchdog.
pub struct SystemWatchdog {
    sys_wdog: SYS_WDOG,
    period: u8,
}

/// The write that reloads the watchdog counter with `period` and resets the
/// rest of its register.
pub open spec fn reload_script(period: u8) -> Seq<Instr> {
    seq![overwrite(Field::WdogVal, period as u32)]
}

impl SystemWatchdog {
    /// The period that the next feed loads.
    pub closed spec fn period(&self) -> u8 {
        self.period
    }

    /// The controller, in place of the token, with the default period.
    pub fn new(sys_wdog: SYS_WDOG) -> (wdog: Self)
        ensures
            wdog.period() == WATCHDOG_DEFAULT_PERIOD,
    {
        SystemWatchdog { sys_wdog, period: WATCHDOG_DEFAULT_PERIOD }
    }

    /// Take `period` as the period, feed the watchdog, and make its expiry
    /// reset the system.
    pub fn start(&mut self, period: u8, script: &mut Script)
        ensures
            final(self).period() == period,
            final(script)@ == old(script)@ + reload_script(period) + reset_on_expiry_script(),
    {
        self.period = period;
        self.feed(script);
        script.overwrite(Field::NmiRst, 1);
        assert(old(script)@.push(reload_script(period)[0]).push(reset_on_expiry_script()[0])
            =~= old(script)@ + reload_script(period) + reset_on_expiry_script());
    }

    /// Reload the counter with the period.
    pub fn feed(&mut self, script: &mut Script)
        ensures
            final(self).period() == old(self).period(),
            final(script)@ == old(script)@ + reload_script(old(self).period()),
    {
        script.overwrite(Field::WdogVal, self.period as u32);
        assert(old(script)@.push(reload_script(self.period)[0]) =~= old(script)@ + reload_script(
            self.period,
        ));
    }
}

} // verus!
