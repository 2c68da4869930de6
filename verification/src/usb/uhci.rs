//! Universal-host-controller-interface driver skeleton.

use vstd::prelude::*;

use crate::usb::UsbError;

verus! {

/// UHCI controller structure.
#[derive(Debug)]
pub struct UHCIDriver {
    io_base: u16,
    initialized: bool,
}

impl UHCIDriver {
    /// Create a new controller driver over the port bank at `io_base`.
    pub fn new(io_base: u16) -> (r: UHCIDriver)
        ensures
            r.io_base() == io_base,
            !r.is_initialized(),
    {
        UHCIDriver { io_base, initialized: false }
    }

    /// The controller's base port.
    pub closed spec fn io_base(&self) -> u16 {
        self.io_base
    }

    /// Whether `init` has completed.
    pub closed spec fn is_initialized(&self) -> bool {
        self.initialized
    }

    /// Initialize the controller: detection and setup are still to come;
    /// the driver only records the transition.
    pub fn init(&mut self) -> (r: Result<(), UsbError>)
        ensures
            r == Ok::<(), UsbError>(()),
            final(self).is_initialized(),
            final(self).io_base() == old(self).io_base(),
    {
        self.initialized = true;
        Ok(())
    }
}

} // verus!
