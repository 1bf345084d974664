//! The system watchdog.

use crate::pac::SYS_WDOG;
use crate::regs::{modify, overwrite, Field, Instr, Update};
use crate::script::Script;
use vstd::prelude::*;

verus! {

/// The period with which a watchdog driver starts out.
pub const WATCHDOG_DEFAULT_PERIOD: u8 = 0xC8;

/// Turns the watchdog's token into its driver.
pub trait SysWdogExt {
    /// The driver, in place of the token, with the default period.
    fn constrain(self) -> (wdog: SysWdog)
        ensures
            wdog.period() == WATCHDOG_DEFAULT_PERIOD,
    ;
}

impl SysWdogExt for SYS_WDOG {
    fn constrain(self) -> (wdog: SysWdog) {
        SysWdog { sys_wdog: self, period: WATCHDOG_DEFAULT_PERIOD }
    }
}

/// Driver of the system watchdog.
pub struct SysWdog {
    sys_wdog: SYS_WDOG,
    period: u8,
}

/// The access that reloads the watchdog counter with `period`, keeping the
/// rest of its register.
pub open spec fn feed_script(period: u8) -> Seq<Instr> {
    seq![modify(Field::WdogVal, Update::Store(period as u32))]
}

/// The access that freezes the watchdog counter.
pub open spec fn freeze_script() -> Seq<Instr> {
    seq![modify(Field::FrzWdog, Update::Store(1))]
}

/// The access that makes an expired watchdog reset the system.
pub open spec fn reset_on_expiry_script() -> Seq<Instr> {
    seq![overwrite(Field::NmiRst, 1)]
}

pub(crate) fn record_freeze(script: &mut Script)
    ensures
        final(script)@ == old(script)@ + freeze_script(),
{
    script.modify(Field::FrzWdog, Update::Store(1));
    assert(old(script)@.push(freeze_script()[0]) =~= old(script)@ + freeze_script());
}

impl SysWdog {
    /// The period that the next feed loads.
    pub closed spec fn period(&self) -> u8 {
        self.period
    }

    /// Take `period` as the period, feed the watchdog, and make its expiry
    /// reset the system.
    pub fn start(&mut self, period: u8, script: &mut Script)
        ensures
            final(self).period() == period,
            final(script)@ == old(script)@ + feed_script(period) + reset_on_expiry_script(),
    {
        self.period = period;
        self.feed(script);
        script.overwrite(Field::NmiRst, 1);
        assert(old(script)@.push(feed_script(period)[0]).push(reset_on_expiry_script()[0])
            =~= old(script)@ + feed_script(period) + reset_on_expiry_script());
    }

    /// Reload the counter with the period.
    pub fn feed(&mut self, script: &mut Script)
        ensures
            final(self).period() == old(self).period(),
            final(script)@ == old(script)@ + feed_script(old(self).period()),
    {
        script.modify(Field::WdogVal, Update::Store(self.period as u32));
        assert(old(script)@.push(feed_script(self.period)[0]) =~= old(script)@ + feed_script(
            self.period,
        ));
    }

    /// Freeze the counter.
    pub fn freeze(&mut self, script: &mut Script)
        ensures
            final(self).period() == old(self).period(),
            final(script)@ == old(script)@ + freeze_script(),
    {
        record_freeze(script);
    }
}

} // verus!
