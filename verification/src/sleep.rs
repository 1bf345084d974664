//! Hibernation, as a controller that is made with `new`.

use crate::crg_aon::sleep::{
    rest_after, resume_script, step_at, valid_pin_mask, SleepPhase, SleepSettings,
};
use crate::interrupt::InterruptController;
use crate::pac::{CRG_AON, SCB};
use crate::regs::Step;
use crate::script::Script;
use crate::watchdog::SystemWatchdog;
use vstd::prelude::*;

pub use crate::crg_aon::sleep::RemapAddr;

verus! {

/// Controller of the way into hibernation. Its view is the settings that it
/// was made with.
pub struct SleepController {
    crg_aon: CRG_AON,
    settings: SleepSettings,
}

impl View for SleepController {
    type V = SleepSettings;

    closed spec fn view(&self) -> SleepSettings {
        self.settings
    }
}

impl SleepController {
    /// The controller, in place of the token. The mask selects at least one
    /// and at most five wakeup pins: no bit above bit 4 is set in it.
    pub fn new(
        crg_aon: CRG_AON,
        pin_mask: u8,
        ram1_on: bool,
        ram2_on: bool,
        ram3_on: bool,
        remap_addr0: RemapAddr,
        pad_latch_en: bool,
    ) -> (controller: Self)
        requires
            valid_pin_mask(pin_mask),
        ensures
            controller@ == (SleepSettings {
                pin_mask,
                ram1_on,
                ram2_on,
                ram3_on,
                remap_addr: remap_addr0,
                pad_latch_en,
            }),
    {
        assert(valid_pin_mask(pin_mask) ==> pin_mask & 0b11111 == pin_mask) by (bit_vector);
        Self {
            crg_aon,
            settings: SleepSettings {
                pin_mask: pin_mask & 0b11111,
                ram1_on,
                ram2_on,
                ram3_on,
                remap_addr: remap_addr0,
                pad_latch_en,
            },
        }
    }

    /// One call of the way into hibernation, as
    /// [`crate::crg_aon::CrgAon::init_sleep`] makes it, with the settings of
    /// this controller.
    pub fn enter_hibernation(
        &mut self,
        wdg: &mut SystemWatchdog,
        interrupt_controller: &mut InterruptController,
        scb: &mut SCB,
        phase: &mut SleepPhase,
        reply: u32,
        script: &mut Script,
    ) -> (step: Step<()>)
        ensures
            final(self)@ == old(self)@,
            *final(phase) == rest_after(*old(phase)),
            final(script)@ == old(script)@ + resume_script(*old(phase), old(self)@, reply),
            step == step_at(*final(phase)),
            final(wdg).period() == old(wdg).period(),
    {
        let rest: SleepPhase = (*phase).resume(&self.settings, reply, script);
        *phase = rest;
        match rest.awaits() {
            Some(field) => Step::Ask(field),
            None => Step::Done(()),
        }
    }
}

} // verus!
