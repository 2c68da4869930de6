//! USB human-interface-device class driver skeleton.

use vstd::prelude::*;

use crate::usb::UsbError;

verus! {

/// HID device type.
#[derive(Debug, Clone, Copy, PartialEq, Eq, Structural)]
pub enum HidDevice {
    Keyboard,
    Mouse,
}

/// USB HID device handle.
pub struct USBHID {
    pub address: u8,
    pub device_type: HidDevice,
}

impl USBHID {
    /// Create a new HID device handle.
    pub fn new(address: u8, device_type: HidDevice) -> (r: USBHID)
        ensures
            r.address == address,
            r.device_type == device_type,
    {
        USBHID { address, device_type }
    }

    /// Initialize the HID device: descriptor parsing is still to come;
    /// the handle is left unchanged.
    pub fn init(&mut self) -> (r: Result<(), UsbError>)
        ensures
            r == Ok::<(), UsbError>(()),
            final(self).address == old(self).address,
            final(self).device_type == old(self).device_type,
    {
        Ok(())
    }

    /// Poll the device for input reports: reading the interrupt endpoint
    /// is still to come, so every poll reports a transfer error and
    /// leaves the buffer untouched.
    pub fn poll(&self, buffer: &mut Vec<u8>) -> (r: Result<(), UsbError>)
        ensures
            r == Err::<(), UsbError>(UsbError::TransferError),
            final(buffer)@ == old(buffer)@,
    {
        Err(UsbError::TransferError)
    }
}

} // verus!
