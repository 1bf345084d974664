//! Configuration of the OTP controller.

use vstd::prelude::*;

verus! {

/// The modes of the OTP controller.
#[derive(Clone, Copy, PartialEq, Eq, Debug, Structural)]
pub enum Mode {
    DeepStandby,
    Standby,
    Read,
    Program,
    ProgramVerify,
    InitialRead,
    DmaRead,
}

/// The code of a mode in its register field.
pub open spec fn mode_code(mode: Mode) -> u8 {
    match mode {
        Mode::DeepStandby => 0,
        Mode::Standby => 1,
        Mode::Read => 2,
        Mode::Program => 3,
        Mode::ProgramVerify => 4,
        Mode::InitialRead => 5,
        Mode::DmaRead => 6,
    }
}

impl Mode {
    /// The code of the mode in its register field.
    pub fn code(self) -> (code: u8)
        ensures
            code == mode_code(self),
    {
        match self {
            Mode::DeepStandby => 0,
            Mode::Standby => 1,
            Mode::Read => 2,
            Mode::Program => 3,
            Mode::ProgramVerify => 4,
            Mode::InitialRead => 5,
            Mode::DmaRead => 6,
        }
    }
}

impl Default for Mode {
    fn default() -> (mode: Self)
        ensures
            mode == Mode::DeepStandby,
    {
        Self::DeepStandby
    }
}

/// What the OTP controller is enabled with.
#[derive(Clone, Copy, PartialEq, Eq, Debug, Structural)]
pub struct OtpcConfig {
    pub(crate) mode: Mode,
}

impl OtpcConfig {
    /// The mode that the controller is put in.
    pub closed spec fn spec_mode(&self) -> Mode {
        self.mode
    }

    /// The mode that the controller is put in.
    pub fn mode(&self) -> (mode: Mode)
        ensures
            mode == self.spec_mode(),
    {
        self.mode
    }

    /// A configuration for `mode`.
    pub fn new(mode: Mode) -> (config: Self)
        ensures
            config.spec_mode() == mode,
    {
        Self { mode }
    }
}

impl Default for OtpcConfig {
    fn default() -> (config: Self)
        ensures
            config.spec_mode() == Mode::DeepStandby,
    {
        Self { mode: Mode::DeepStandby }
    }
}

} // verus!
