//! USB mass-storage class driver skeleton.

use vstd::prelude::*;

use crate::usb::UsbError;

verus! {

/// Mass storage device handle.
pub struct USBMassStorage {
    pub address: u8,
}

impl USBMassStorage {
    /// Create a new mass-storage device handle.
    pub fn new(address: u8) -> (r: USBMassStorage)
        ensures
            r.address == address,
    {
        USBMassStorage { address }
    }

    /// Initialize the device: bulk-only-transport setup is still to
    /// come; the handle is left unchanged.
    pub fn init(&mut self) -> (r: Result<(), UsbError>)
        ensures
            r == Ok::<(), UsbError>(()),
            final(self).address == old(self).address,
    {
        Ok(())
    }

    /// Read a 512-byte block from the device: issuing the read command
    /// is still to come, so every read reports a transfer error and
    /// leaves the buffer untouched.
    pub fn read_block(&self, _lba: u32, buffer: &mut Vec<u8>) -> (r: Result<(), UsbError>)
        ensures
            r == Err::<(), UsbError>(UsbError::TransferError),
            final(buffer)@ == old(buffer)@,
    {
        Err(UsbError::TransferError)
    }
}

} // verus!
