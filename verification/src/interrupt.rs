//! The interrupt controller, as a controller that is made with `new`.

use crate::nvic::{
    clear_pending_script, disable_script, enable_script, priority_script, record_clear_pending,
    record_disable, record_enable, record_priority,
};
use crate::pac::NVIC;
use crate::script::Script;
use vstd::prelude::*;

pub use crate::nvic::Irq;

verus! {

/// Controller of the interrupt controller.
pub struct InterruptController {
    nvic: NVIC,
}

impl InterruptController {
    /// The controller, in place of the token, which it holds from here on.
    pub fn new(nvic: NVIC) -> (controller: Self)
        ensures
            controller.token() == nvic,
    {
        Self { nvic }
    }

    /// The token that the controller was made from, and holds.
    pub closed spec fn token(&self) -> NVIC {
        self.nvic
    }

    /// Give a vector its priority.
    pub fn set_priority(&mut self, interrupt: Irq, priority: u8, script: &mut Script)
        ensures
            final(script)@ == old(script)@ + priority_script(interrupt, priority),
    {
        record_priority(interrupt, priority, script);
    }

    /// Enable a vector.
    pub fn enable_irq(&self, interrupt: Irq, script: &mut Script)
        ensures
            final(script)@ == old(script)@ + enable_script(interrupt),
    {
        record_enable(interrupt, script);
    }

    /// Disable a vector.
    pub fn disable_irq(&self, interrupt: Irq, script: &mut Script)
        ensures
            final(script)@ == old(script)@ + disable_script(interrupt),
    {
        record_disable(interrupt, script);
    }

    /// Clear every pending vector, whatever is pending.
    pub fn clear_pending_interrupts(&mut self, script: &mut Script)
        ensures
            final(script)@ == old(script)@ + clear_pending_script(),
    {
        record_clear_pending(script);
    }
}

/// Where one interrupt's handler is registered: once, and for good.
pub struct HandlerSlot<H> {
    handler: Option<H>,
}

/// A handler was registered where one is registered already.
#[derive(Clone, Copy, Debug, PartialEq, Eq, Structural)]
pub struct AlreadyRegistered;

impl<H> View for HandlerSlot<H> {
    type V = Option<H>;

    closed spec fn view(&self) -> Option<H> {
        self.handler
    }
}

impl<H> HandlerSlot<H> {
    /// A slot without a handler.
    pub fn new() -> (slot: Self)
        ensures
            slot@.is_none(),
    {
        Self { handler: None }
    }

    /// Register `handler`, if none is registered; the slot is left as it is
    /// otherwise.
    pub fn register(&mut self, handler: H) -> (done: Result<(), AlreadyRegistered>)
        ensures
            old(self)@.is_none() ==> done.is_ok() && final(self)@ == Some(handler),
            old(self)@.is_some() ==> done == Err::<(), AlreadyRegistered>(AlreadyRegistered)
                && final(self)@ == old(self)@,
    {
        if self.handler.is_none() {
            self.handler = Some(handler);
            Ok(())
        } else {
            Err(AlreadyRegistered)
        }
    }

    /// The registered handler.
    pub fn handler(&self) -> (handler: Option<&H>)
        ensures
            handler.is_some() == self@.is_some(),
            handler.is_some() ==> *handler.unwrap() == self@.unwrap(),
    {
        self.handler.as_ref()
    }
}

} // verus!
