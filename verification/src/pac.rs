//! Ownership of the peripherals.
//!
//! Each peripheral has a token. A driver is made from its token and keeps it,
//! so that at most one driver of a peripheral exists. The tokens come out of a
//! [`Slot`] together, once.

use vstd::prelude::*;

verus! {

/// Token of the always-on clock and reset generator.
#[allow(non_camel_case_types)]
pub struct CRG_AON {
    _token: (),
}

/// Token of the clock and reset generator.
#[allow(non_camel_case_types)]
pub struct CRG_TOP {
    _token: (),
}

/// Token of the analog to digital converter.
#[allow(non_camel_case_types)]
pub struct GPADC {
    _token: (),
}

/// Token of the port.
#[allow(non_camel_case_types)]
pub struct GPIO {
    _token: (),
}

/// Token of the I2C controller.
#[allow(non_camel_case_types)]
pub struct I2C {
    _token: (),
}

/// Token of the interrupt controller.
#[allow(non_camel_case_types)]
pub struct NVIC {
    _token: (),
}

/// Token of the OTP controller.
#[allow(non_camel_case_types)]
pub struct OTPC {
    _token: (),
}

/// Token of the quadrature decoder.
#[allow(non_camel_case_types)]
pub struct QUADEC {
    _token: (),
}

/// Token of the core's system control block.
#[allow(non_camel_case_types)]
pub struct SCB {
    _token: (),
}

/// Token of the SPI controller.
#[allow(non_camel_case_types)]
pub struct SPI {
    _token: (),
}

/// Token of the watchdog.
#[allow(non_camel_case_types)]
pub struct SYS_WDOG {
    _token: (),
}

/// Token of timer 0.
#[allow(non_camel_case_types)]
pub struct TIMER0 {
    _token: (),
}

/// Token of timer 1.
#[allow(non_camel_case_types)]
pub struct TIMER1 {
    _token: (),
}

/// Token of the first UART.
#[allow(non_camel_case_types)]
pub struct UART {
    _token: (),
}

/// Token of the second UART.
#[allow(non_camel_case_types)]
pub struct UART2 {
    _token: (),
}

/// Token of the wakeup controller.
#[allow(non_camel_case_types)]
pub struct WKUP {
    _token: (),
}

/// The tokens of all peripherals.
#[allow(non_snake_case)]
pub struct Peripherals {
    pub CRG_AON: CRG_AON,
    pub CRG_TOP: CRG_TOP,
    pub GPADC: GPADC,
    pub GPIO: GPIO,
    pub I2C: I2C,
    pub NVIC: NVIC,
    pub OTPC: OTPC,
    pub QUADEC: QUADEC,
    pub SCB: SCB,
    pub SPI: SPI,
    pub SYS_WDOG: SYS_WDOG,
    pub TIMER0: TIMER0,
    pub TIMER1: TIMER1,
    pub UART: UART,
    pub UART2: UART2,
    pub WKUP: WKUP,
}

/// The place where the tokens of one device lie until they are taken.
pub struct Slot {
    taken: bool,
}

impl Slot {
    /// Whether the tokens are still there.
    pub closed spec fn is_full(&self) -> bool {
        !self.taken
    }

    /// The slot of a device whose tokens nobody has taken.
    pub fn new() -> (slot: Slot)
        ensures
            slot.is_full(),
    {
        Slot { taken: false }
    }

    /// The tokens, the first time; nothing ever after.
    pub fn take(&mut self) -> (peripherals: Option<Peripherals>)
        ensures
            peripherals.is_some() == old(self).is_full(),
            !final(self).is_full(),
    {
        if self.taken {
            None
        } else {
            self.taken = true;
            Some(
                Peripherals {
                    CRG_AON: CRG_AON { _token: () },
                    CRG_TOP: CRG_TOP { _token: () },
                    GPADC: GPADC { _token: () },
                    GPIO: GPIO { _token: () },
                    I2C: I2C { _token: () },
                    NVIC: NVIC { _token: () },
                    OTPC: OTPC { _token: () },
                    QUADEC: QUADEC { _token: () },
                    SCB: SCB { _token: () },
                    SPI: SPI { _token: () },
                    SYS_WDOG: SYS_WDOG { _token: () },
                    TIMER0: TIMER0 { _token: () },
                    TIMER1: TIMER1 { _token: () },
                    UART: UART { _token: () },
                    UART2: UART2 { _token: () },
                    WKUP: WKUP { _token: () },
                },
            )
        }
    }
}

} // verus!
