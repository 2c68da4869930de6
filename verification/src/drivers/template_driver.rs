//! Template driver: the smallest instance of the port-mapped driver
//! pattern — detect the device, initialize it, then exchange single bytes
//! through a data port. New drivers start from this shape.

use vstd::prelude::*;

use crate::regs::{PortModel, PortRegisters, PortWidth, PortWrite};

verus! {

/// Mathematical content of the driver: its port window, base port and
/// state flag.
#[verifier::ext_equal]
pub ghost struct TemplateModel {
    pub ports: PortModel,
    pub base_port: u16,
    pub initialized: bool,
}

impl TemplateModel {
    /// Well-formedness: the window covers the port space and the base
    /// port leaves room for the status port above it.
    pub open spec fn wf(self) -> bool {
        &&& self.ports.device.len() == 0x10000
        &&& self.base_port < 0xFFFF
    }
}

/// Driver errors.
#[derive(Clone, Copy, Debug, PartialEq, Eq, Structural)]
pub enum DriverError {
    DeviceNotFound,
    NotInitialized,
    InvalidData,
    Timeout,
}

impl DriverError {
    /// A short description of the error.
    pub fn as_str(&self) -> (r: &'static str)
        ensures
            self is DeviceNotFound ==> r@ == "Device not found"@,
            self is NotInitialized ==> r@ == "Driver not initialized"@,
            self is InvalidData ==> r@ == "Invalid data"@,
            self is Timeout ==> r@ == "Operation timed out"@,
    {
        match self {
            DriverError::DeviceNotFound => "Device not found",
            DriverError::NotInitialized => "Driver not initialized",
            DriverError::InvalidData => "Invalid data",
            DriverError::Timeout => "Operation timed out",
        }
    }
}

/// Driver structure: a command/data port at the base, a status port one
/// above it.
pub struct TemplateDriver {
    base_port: u16,
    ports: PortRegisters,
    initialized: bool,
}

impl View for TemplateDriver {
    type V = TemplateModel;

    closed spec fn view(&self) -> TemplateModel {
        TemplateModel {
            ports: self.ports@,
            base_port: self.base_port,
            initialized: self.initialized,
        }
    }
}

impl TemplateDriver {
    /// Well-formedness of the driver's model.
    pub open spec fn wf(&self) -> bool {
        self@.wf()
    }

    /// Create a new driver instance over the port pair at `base_port`;
    /// the driver starts uninitialized and issues no port write.
    pub fn new(base_port: u16) -> (r: TemplateDriver)
        requires
            base_port < 0xFFFF,
        ensures
            r.wf(),
            r@.base_port == base_port,
            !r@.initialized,
            r@.ports.log.len() == 0,
            forall|i: int| 0 <= i < 0x10000 ==> r@.ports.device[i] == 0u8,
    {
        TemplateDriver { base_port, ports: PortRegisters::new(), initialized: false }
    }

    /// The driver's base port.
    pub fn base_port(&self) -> (r: u16)
        ensures
            r == self@.base_port,
    {
        self.base_port
    }

    /// Whether `init` has completed.
    pub fn is_initialized(&self) -> (r: bool)
        ensures
            r == self@.initialized,
    {
        self.initialized
    }

    /// The driver's port window, for inspecting the write log.
    pub fn ports(&self) -> (r: &PortRegisters)
        ensures
            r@ == self@.ports,
    {
        &self.ports
    }

    /// Device side: present one byte at `port`, as the hardware or a
    /// simulation double would.
    pub fn device_set_port8(&mut self, port: u16, value: u8)
        requires
            old(self).wf(),
        ensures
            final(self).wf(),
            final(self)@.ports.device == old(self)@.ports.device.update(port as int, value),
            final(self)@.ports.log == old(self)@.ports.log,
            final(self)@.base_port == old(self)@.base_port,
            final(self)@.initialized == old(self)@.initialized,
    {
        self.ports.device_set8(port, value);
    }

    /// Detect if the device is present: its status port reads back the
    /// device signature `0xFF`.
    fn detect_device(&self) -> (r: Result<bool, DriverError>)
        requires
            self.wf(),
        ensures
            r == Ok::<bool, DriverError>(self@.ports.device[self@.base_port + 1] == 0xFF),
    {
        let status = self.ports.read8(self.base_port + 1);

        // Check device signature
        Ok(status == 0xFF)
    }

    /// Initialize the device.
    ///
    /// Fails `DeviceNotFound`, changing nothing, when the status port
    /// does not read back the device signature. Otherwise writes the
    /// initialization command to the command port and marks the driver
    /// initialized.
    pub fn init(&mut self) -> (r: Result<(), DriverError>)
        requires
            old(self).wf(),
        ensures
            final(self).wf(),
            old(self)@.ports.device[old(self)@.base_port + 1] != 0xFF ==> r == Err::<(),
                DriverError,
            >(DriverError::DeviceNotFound) && final(self)@ == old(self)@,
            old(self)@.ports.device[old(self)@.base_port + 1] == 0xFF ==> r == Ok::<(),
                DriverError,
            >(()) && final(self)@ == (TemplateModel {
                ports: PortModel {
                    device: old(self)@.ports.device,
                    log: old(self)@.ports.log.push(
                        PortWrite {
                            port: old(self)@.base_port,
                            width: PortWidth::Byte,
                            value: 0x00,
                        },
                    ),
                },
                base_port: old(self)@.base_port,
                initialized: true,
            }),
    {
        // Check if device exists
        let present = match self.detect_device() {
            Ok(p) => p,
            Err(e) => {
                return Err(e);
            },
        };
        if !present {
            return Err(DriverError::DeviceNotFound);
        }

        // Write initialization commands
        self.ports.write8(self.base_port, 0x00);

        self.initialized = true;
        proof {
            assert(self@ =~~= (TemplateModel {
                ports: PortModel {
                    device: old(self)@.ports.device,
                    log: old(self)@.ports.log.push(
                        PortWrite {
                            port: old(self)@.base_port,
                            width: PortWidth::Byte,
                            value: 0x00,
                        },
                    ),
                },
                base_port: old(self)@.base_port,
                initialized: true,
            }));
        }
        Ok(())
    }

    /// Read one byte from the device's data port. Fails `NotInitialized`
    /// before `init`; otherwise presents the byte the device holds there,
    /// changing nothing.
    pub fn read(&mut self) -> (r: Result<u8, DriverError>)
        requires
            old(self).wf(),
        ensures
            final(self).wf(),
            final(self)@ == old(self)@,
            !old(self)@.initialized ==> r == Err::<u8, DriverError>(DriverError::NotInitialized),
            old(self)@.initialized ==> r == Ok::<u8, DriverError>(
                old(self)@.ports.device[old(self)@.base_port as int],
            ),
    {
        if !self.initialized {
            return Err(DriverError::NotInitialized);
        }

        Ok(self.ports.read8(self.base_port))
    }

    /// Write one byte to the device's data port. Fails `NotInitialized`
    /// before `init`, changing nothing; otherwise the byte joins the
    /// write log.
    pub fn write(&mut self, data: u8) -> (r: Result<(), DriverError>)
        requires
            old(self).wf(),
        ensures
            final(self).wf(),
            !old(self)@.initialized ==> r == Err::<(), DriverError>(DriverError::NotInitialized)
                && final(self)@ == old(self)@,
            old(self)@.initialized ==> r == Ok::<(), DriverError>(()) && final(self)@
                == (TemplateModel {
                ports: PortModel {
                    device: old(self)@.ports.device,
                    log: old(self)@.ports.log.push(
                        PortWrite {
                            port: old(self)@.base_port,
                            width: PortWidth::Byte,
                            value: data as u32,
                        },
                    ),
                },
                base_port: old(self)@.base_port,
                initialized: old(self)@.initialized,
            }),
    {
        if !self.initialized {
            return Err(DriverError::NotInitialized);
        }

        self.ports.write8(self.base_port, data);
        proof {
            assert(self@ =~~= (TemplateModel {
                ports: PortModel {
                    device: old(self)@.ports.device,
                    log: old(self)@.ports.log.push(
                        PortWrite {
                            port: old(self)@.base_port,
                            width: PortWidth::Byte,
                            value: data as u32,
                        },
                    ),
                },
                base_port: old(self)@.base_port,
                initialized: old(self)@.initialized,
            }));
        }
        Ok(())
    }
}

} // verus!
