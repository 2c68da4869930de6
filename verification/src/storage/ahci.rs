//! Serial-ATA host-bus-adapter driver skeleton.
//!
//! The adapter's register file is a fixed layout of global registers
//! followed by 32 per-port register banks. The controller owns that
//! layout as plain data; the unverified shim that maps the real,
//! memory-mapped HBA copies it in and out. Initialization sets the
//! adapter's enable bit; port discovery reads the implemented-ports
//! bitmap; the command paths are still skeletons.

use vstd::prelude::*;

verus! {

/// AHCI port registers (simplified).
#[derive(Clone, Copy, Debug, PartialEq, Eq, Structural)]
pub struct HbaPort {
    pub command_list_base: u64,
    pub fis_base: u64,
    pub interrupt_status: u32,
    pub interrupt_enable: u32,
    pub command_and_status: u32,
    pub reserved: u32,
    pub task_file_data: u32,
    pub signature: u32,
    pub sata_status: u32,
    pub sata_control: u32,
    pub sata_error: u32,
    pub sata_active: u32,
    pub command_issue: u32,
    pub sata_notification: u32,
    pub fis_switch_control: u32,
}

impl HbaPort {
    /// A port bank with every register zero.
    pub fn new() -> (r: HbaPort)
        ensures
            r == (HbaPort {
                command_list_base: 0,
                fis_base: 0,
                interrupt_status: 0,
                interrupt_enable: 0,
                command_and_status: 0,
                reserved: 0,
                task_file_data: 0,
                signature: 0,
                sata_status: 0,
                sata_control: 0,
                sata_error: 0,
                sata_active: 0,
                command_issue: 0,
                sata_notification: 0,
                fis_switch_control: 0,
            }),
    {
        HbaPort {
            command_list_base: 0,
            fis_base: 0,
            interrupt_status: 0,
            interrupt_enable: 0,
            command_and_status: 0,
            reserved: 0,
            task_file_data: 0,
            signature: 0,
            sata_status: 0,
            sata_control: 0,
            sata_error: 0,
            sata_active: 0,
            command_issue: 0,
            sata_notification: 0,
            fis_switch_control: 0,
        }
    }
}

/// Host-bus-adapter register file (simplified): global registers and the
/// 32 port banks.
pub struct HbaMem {
    pub host_cap: u32,
    pub global_host_control: u32,
    pub interrupt_status: u32,
    pub ports_implemented: u32,
    pub ports: Vec<HbaPort>,
}

impl HbaMem {
    /// Every register zero, with all 32 port banks in place.
    pub fn new() -> (r: HbaMem)
        ensures
            r.host_cap == 0,
            r.global_host_control == 0,
            r.interrupt_status == 0,
            r.ports_implemented == 0,
            r.ports@.len() == 32,
    {
        let mut ports: Vec<HbaPort> = Vec::new();
        let mut i: usize = 0;
        while i < 32
            invariant
                i <= 32,
                ports@.len() == i,
            decreases 32 - i,
        {
            ports.push(HbaPort::new());
            i = i + 1;
        }
        HbaMem {
            host_cap: 0,
            global_host_control: 0,
            interrupt_status: 0,
            ports_implemented: 0,
            ports,
        }
    }
}

/// Errors returned by the controller.
#[derive(Clone, Copy, Debug, PartialEq, Eq, Structural)]
pub enum AhciError {
    NoPort,
    CommandFailed,
}

impl AhciError {
    /// A short description of the error.
    pub fn as_str(&self) -> (r: &'static str)
        ensures
            self is NoPort ==> r@ == "Port not available"@,
            self is CommandFailed ==> r@ == "Command failed"@,
    {
        match self {
            AhciError::NoPort => "Port not available",
            AhciError::CommandFailed => "Command failed",
        }
    }
}

/// Controller abstraction over an adapter's register file.
pub struct AhciController {
    hba: HbaMem,
}

impl AhciController {
    /// The controller's view of the adapter's registers.
    pub closed spec fn hba_regs(&self) -> HbaMem {
        self.hba
    }

    /// Create a controller over an adapter register file.
    pub fn new(hba: HbaMem) -> (r: AhciController)
        ensures
            r.hba_regs() == hba,
    {
        AhciController { hba }
    }

    /// Enable AHCI mode: set bit 31 of the global host control register,
    /// leaving every other register as it was.
    pub fn init(&mut self)
        ensures
            final(self).hba_regs().global_host_control == old(self).hba_regs().global_host_control
                | 0x8000_0000,
            final(self).hba_regs().host_cap == old(self).hba_regs().host_cap,
            final(self).hba_regs().interrupt_status == old(self).hba_regs().interrupt_status,
            final(self).hba_regs().ports_implemented == old(self).hba_regs().ports_implemented,
            final(self).hba_regs().ports == old(self).hba_regs().ports,
    {
        // Set AHCI enable bit
        proof {
            assert(1u32 << 31u32 == 0x8000_0000) by (bit_vector);
        }
        self.hba.global_host_control = with_bit_set(self.hba.global_host_control, 31);
    }

    /// The global host control register's current value.
    pub fn global_host_control(&self) -> (r: u32)
        ensures
            r == self.hba_regs().global_host_control,
    {
        self.hba.global_host_control
    }

    /// Return the bitmap of implemented ports.
    pub fn discover_ports(&self) -> (r: u32)
        ensures
            r == self.hba_regs().ports_implemented,
    {
        self.hba.ports_implemented
    }

    /// Read sectors using a normal command: still a skeleton that
    /// succeeds without touching the adapter or the buffer.
    pub fn read(&mut self, _port: usize, _lba: u64, buffer: &mut Vec<u8>) -> (r: Result<
        (),
        AhciError,
    >)
        ensures
            r == Ok::<(), AhciError>(()),
            final(self).hba_regs() == old(self).hba_regs(),
            final(buffer)@ == old(buffer)@,
    {
        Ok(())
    }

    /// Write sectors using a normal command: still a skeleton that
    /// succeeds without touching the adapter.
    pub fn write(&mut self, _port: usize, _lba: u64, _buffer: &[u8]) -> (r: Result<(), AhciError>)
        ensures
            r == Ok::<(), AhciError>(()),
            final(self).hba_regs() == old(self).hba_regs(),
    {
        Ok(())
    }

    /// Issue a native-queued read command: still a skeleton that succeeds
    /// without touching the adapter or the buffer.
    pub fn read_ncq(&mut self, _port: usize, _tag: u8, _lba: u64, buffer: &mut Vec<u8>) -> (r: Result<
        (),
        AhciError,
    >)
        ensures
            r == Ok::<(), AhciError>(()),
            final(self).hba_regs() == old(self).hba_regs(),
            final(buffer)@ == old(buffer)@,
    {
        Ok(())
    }
}

/// Relies on bit_field's `BitField::set_bit` for `u32`: setting bit `b`
/// of `v` to true leaves `v | (1 << b)`.
#[verifier::external_body]
fn with_bit_set(v: u32, bit: u32) -> (r: u32)
    requires
        bit < 32,
    ensures
        r == v | (1u32 << bit),
{
    let mut x = v;
    bit_field::BitField::set_bit(&mut x, bit as usize, true);
    x
}

} // verus!
