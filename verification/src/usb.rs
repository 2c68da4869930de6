//! USB host-controller and class driver skeletons.

use vstd::prelude::*;

pub mod ehci;

pub mod hid;

pub mod mass_storage;

pub mod ohci;

pub mod uhci;

pub mod xhci;

verus! {

/// Common USB error type.
#[derive(Clone, Copy, Debug, PartialEq, Eq, Structural)]
pub enum UsbError {
    ControllerNotFound,
    InitializationFailed,
    TransferError,
}

} // verus!
