//! Enhanced-host-controller-interface driver skeleton.

use vstd::prelude::*;

use crate::usb::UsbError;

verus! {

/// EHCI controller structure.
#[derive(Debug)]
pub struct EHCIDriver {
    mem_base: u32,
    initialized: bool,
}

impl EHCIDriver {
    /// Create a new controller driver over the register window at
    /// `mem_base`.
    pub fn new(mem_base: u32) -> (r: EHCIDriver)
        ensures
            r.mem_base() == mem_base,
            !r.is_initialized(),
    {
        EHCIDriver { mem_base, initialized: false }
    }

    /// The controller's register window base.
    pub closed spec fn mem_base(&self) -> u32 {
        self.mem_base
    }

    /// Whether `init` has completed.
    pub closed spec fn is_initialized(&self) -> bool {
        self.initialized
    }

    /// Initialize the controller: the memory-mapped setup is still to
    /// come; the driver only records the transition.
    pub fn init(&mut self) -> (r: Result<(), UsbError>)
        ensures
            r == Ok::<(), UsbError>(()),
            final(self).is_initialized(),
            final(self).mem_base() == old(self).mem_base(),
    {
        self.initialized = true;
        Ok(())
    }
}

} // verus!
