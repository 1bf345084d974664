//! The OTP controller.

use crate::crg_top::{gate_script, CrgTop};
use crate::otpc::config::{mode_code, Mode, OtpcConfig};
use crate::pac::OTPC;
use crate::regs::{overwrite, Field, Instr};
use crate::script::Script;
use vstd::prelude::*;

pub mod config;

verus! {

/// Turns the controller's token into its driver.
pub trait OtpcExt {
    /// The driver, in place of the token.
    fn constrain(self) -> Otpc;
}

impl OtpcExt for OTPC {
    fn constrain(self) -> (driver: Otpc)
        ensures
            driver.token() == self,
    {
        Otpc { otpc: self }
    }
}

/// Driver of the OTP controller.
pub struct Otpc {
    otpc: OTPC,
}

/// The write that puts the controller in a mode.
pub open spec fn mode_script(mode: Mode) -> Seq<Instr> {
    seq![overwrite(Field::OtpcModeMode, mode_code(mode) as u32)]
}

impl Otpc {
    /// The token that the driver was made from, and holds.
    pub closed spec fn token(&self) -> OTPC {
        self.otpc
    }

    /// Open the controller's clock gate, then put it in the mode of the
    /// configuration.
    pub fn enable(&self, crg_top: &mut CrgTop, otpc_config: OtpcConfig, script: &mut Script)
        ensures
            final(script)@ == old(script)@ + gate_script(Field::OtpEnable, true) + mode_script(
                otpc_config.spec_mode(),
            ),
    {
        crg_top.enable_peripheral::<OTPC>(script);
        script.overwrite(Field::OtpcModeMode, otpc_config.mode().code() as u32);
        assert(script@ =~= old(script)@ + gate_script(Field::OtpEnable, true) + mode_script(
            otpc_config.spec_mode(),
        ));
    }

    /// Put the controller in deep standby, then close its clock gate.
    pub fn disable(&self, crg_top: &mut CrgTop, script: &mut Script)
        ensures
            final(script)@ == old(script)@ + mode_script(Mode::DeepStandby) + gate_script(
                Field::OtpEnable,
                false,
            ),
    {
        script.overwrite(Field::OtpcModeMode, Mode::DeepStandby.code() as u32);
        crg_top.disable_peripheral::<OTPC>(script);
        assert(script@ =~= old(script)@ + mode_script(Mode::DeepStandby) + gate_script(
            Field::OtpEnable,
            false,
        ));
    }
}

} // verus!
