//! Legacy IDE-bus disk controller driver.
//!
//! Disk detection and single-sector transfers go through the classic
//! eight-port register bank at `io_base`: sector count, the three LBA
//! bytes, drive/head, and the shared command/status port, with the data
//! port at the base. DMA transfer set-up records the bus-master base;
//! the transfers themselves are still skeletons.
//!
//! One modelling note: the port window presents a latched value per
//! port, so in this model every word pulled from the data port during a
//! sector read carries the same two device bytes; a streaming FIFO is
//! beyond the window's vocabulary.

use vstd::prelude::*;

use crate::regs::{PortModel, PortRegisters, PortWidth, PortWrite, port_word};

verus! {

/// Mathematical content of the controller: port window, the two port
/// bases and the optional bus-master base.
#[verifier::ext_equal]
pub ghost struct AtaModel {
    pub ports: PortModel,
    pub io_base: u16,
    pub control_base: u16,
    pub bus_master_base: Option<u16>,
}

impl AtaModel {
    /// Well-formedness: the window covers the port space and the base
    /// leaves room for the eight-port bank.
    pub open spec fn wf(self) -> bool {
        &&& self.ports.device.len() == 0x10000
        &&& self.io_base <= 0xFFF0
    }
}

/// Errors returned by the controller.
#[derive(Clone, Copy, Debug, PartialEq, Eq, Structural)]
pub enum AtaError {
    DeviceNotFound,
    InvalidLba,
    BufferTooSmall,
    Timeout,
}

impl AtaError {
    /// A short description of the error.
    pub fn as_str(&self) -> (r: &'static str)
        ensures
            self is DeviceNotFound ==> r@ == "ATA device not found"@,
            self is InvalidLba ==> r@ == "Invalid LBA"@,
            self is BufferTooSmall ==> r@ == "Buffer too small"@,
            self is Timeout ==> r@ == "Operation timed out"@,
    {
        match self {
            AtaError::DeviceNotFound => "ATA device not found",
            AtaError::InvalidLba => "Invalid LBA",
            AtaError::BufferTooSmall => "Buffer too small",
            AtaError::Timeout => "Operation timed out",
        }
    }
}

/// The six port writes that stage a one-sector transfer for `lba` and
/// issue command `cmd`: sector count one, the three low LBA bytes, the
/// drive/head byte carrying LBA bits 24–27, then the command itself.
pub open spec fn sector_setup_log(io_base: u16, lba: u32, cmd: u8) -> Seq<PortWrite> {
    seq![
        PortWrite { port: (io_base + 2) as u16, width: PortWidth::Byte, value: 1 },
        PortWrite {
            port: (io_base + 3) as u16,
            width: PortWidth::Byte,
            value: ((lba & 0xFF) as u8) as u32,
        },
        PortWrite {
            port: (io_base + 4) as u16,
            width: PortWidth::Byte,
            value: (((lba >> 8u32) & 0xFF) as u8) as u32,
        },
        PortWrite {
            port: (io_base + 5) as u16,
            width: PortWidth::Byte,
            value: (((lba >> 16u32) & 0xFF) as u8) as u32,
        },
        PortWrite {
            port: (io_base + 6) as u16,
            width: PortWidth::Byte,
            value: (0xE0u8 | (((lba >> 24u32) & 0x0F) as u8)) as u32,
        },
        PortWrite { port: (io_base + 7) as u16, width: PortWidth::Byte, value: cmd as u32 },
    ]
}

/// The 256 data-port writes that push a sector out of `data`: each word
/// is two consecutive buffer bytes, low byte first.
pub open spec fn sector_data_log(io_base: u16, data: Seq<u8>) -> Seq<PortWrite> {
    Seq::new(
        256,
        |i: int|
            PortWrite {
                port: io_base,
                width: PortWidth::Word,
                value: ((data[2 * i + 1] as u16) * 0x100 + (data[2 * i] as u16)) as u32,
            },
    )
}

/// A controller on a legacy IDE bus.
pub struct AtaController {
    pub io_base: u16,
    pub control_base: u16,
    ports: PortRegisters,
    bus_master_base: Option<u16>,
}

impl View for AtaController {
    type V = AtaModel;

    closed spec fn view(&self) -> AtaModel {
        AtaModel {
            ports: self.ports@,
            io_base: self.io_base,
            control_base: self.control_base,
            bus_master_base: self.bus_master_base,
        }
    }
}

impl AtaController {
    /// Well-formedness of the controller's model.
    pub open spec fn wf(&self) -> bool {
        self@.wf()
    }

    /// Create a new controller instance with the given I/O ports; no DMA
    /// base is recorded and no port write issued.
    pub fn new(io_base: u16, control_base: u16) -> (r: AtaController)
        requires
            io_base <= 0xFFF0,
        ensures
            r.wf(),
            r@.io_base == io_base,
            r@.control_base == control_base,
            r@.bus_master_base is None,
            r@.ports.log.len() == 0,
            forall|i: int| 0 <= i < 0x10000 ==> r@.ports.device[i] == 0u8,
    {
        AtaController { io_base, control_base, ports: PortRegisters::new(), bus_master_base: None }
    }

    /// The controller's port window, for inspecting the write log.
    pub fn ports(&self) -> (r: &PortRegisters)
        ensures
            r@ == self@.ports,
    {
        &self.ports
    }

    /// Device side: present one byte at `port`, as the drive or a
    /// simulation double would.
    pub fn device_set_port8(&mut self, port: u16, value: u8)
        requires
            old(self).wf(),
        ensures
            final(self).wf(),
            final(self)@.ports.device == old(self)@.ports.device.update(port as int, value),
            final(self)@.ports.log == old(self)@.ports.log,
            final(self)@.io_base == old(self)@.io_base,
            final(self)@.control_base == old(self)@.control_base,
            final(self)@.bus_master_base == old(self)@.bus_master_base,
    {
        self.ports.device_set8(port, value);
    }

    /// Detect drive presence with the IDENTIFY command: select the master
    /// drive, issue IDENTIFY, and poll the status port until its busy bit
    /// reads clear, bounded at 100000 polls. Presence is a non-zero
    /// status; a busy bit that never clears is `Timeout`.
    pub fn detect(&mut self) -> (r: Result<bool, AtaError>)
        requires
            old(self).wf(),
        ensures
            final(self).wf(),
            final(self)@.ports.device == old(self)@.ports.device,
            final(self)@.io_base == old(self)@.io_base,
            final(self)@.control_base == old(self)@.control_base,
            final(self)@.bus_master_base == old(self)@.bus_master_base,
            final(self)@.ports.log == old(self)@.ports.log.push(
                PortWrite {
                    port: (old(self)@.io_base + 6) as u16,
                    width: PortWidth::Byte,
                    value: 0xA0,
                },
            ).push(
                PortWrite {
                    port: (old(self)@.io_base + 7) as u16,
                    width: PortWidth::Byte,
                    value: 0xEC,
                },
            ),
            r == if old(self)@.ports.device[old(self)@.io_base + 7] & 0x80 == 0 {
                Ok::<bool, AtaError>(old(self)@.ports.device[old(self)@.io_base + 7] != 0)
            } else {
                Err::<bool, AtaError>(AtaError::Timeout)
            },
    {
        let drive_head = self.io_base + 6;
        self.ports.write8(drive_head, 0xA0);  // Master drive

        let status_port = self.io_base + 7;
        self.ports.write8(status_port, 0xEC);  // IDENTIFY

        // Wait for BSY to clear
        let mut attempts: usize = 0;
        while attempts < 100000
            invariant
                old(self).wf(),
                attempts > 0 ==> old(self)@.ports.device[old(self)@.io_base + 7] & 0x80 != 0,
                self.io_base == old(self)@.io_base,
                self.control_base == old(self)@.control_base,
                self.bus_master_base == old(self)@.bus_master_base,
                status_port == self.io_base + 7,
                self.ports.wf(),
                self.ports@.device == old(self)@.ports.device,
                self.ports@.log == old(self)@.ports.log.push(
                    PortWrite {
                        port: (old(self)@.io_base + 6) as u16,
                        width: PortWidth::Byte,
                        value: 0xA0,
                    },
                ).push(
                    PortWrite {
                        port: (old(self)@.io_base + 7) as u16,
                        width: PortWidth::Byte,
                        value: 0xEC,
                    },
                ),
            decreases 100000 - attempts,
        {
            let s = self.ports.read8(status_port);
            if s & 0x80 == 0 {
                return Ok(s != 0);
            }
            attempts = attempts + 1;
        }
        Err(AtaError::Timeout)
    }

    /// Read a single 512-byte sector into the front of `buffer` using
    /// programmed I/O. Fails `BufferTooSmall`, changing nothing, when
    /// `buffer` holds fewer than 512 bytes. Otherwise stages the
    /// transfer, polls the status port for data-ready (bounded, then
    /// proceeds regardless), and pulls 256 words from the data port into
    /// the buffer, low byte first — each word carrying the two bytes the
    /// device presents there.
    pub fn read_sector(&mut self, lba: u32, buffer: &mut Vec<u8>) -> (r: Result<(), AtaError>)
        requires
            old(self).wf(),
        ensures
            final(self).wf(),
            final(self)@.ports.device == old(self)@.ports.device,
            final(self)@.io_base == old(self)@.io_base,
            final(self)@.control_base == old(self)@.control_base,
            final(self)@.bus_master_base == old(self)@.bus_master_base,
            final(buffer)@.len() == old(buffer)@.len(),
            old(buffer)@.len() < 512 ==> r == Err::<(), AtaError>(AtaError::BufferTooSmall)
                && final(self)@ == old(self)@ && final(buffer)@ == old(buffer)@,
            old(buffer)@.len() >= 512 ==> {
                let word = port_word(old(self)@.ports.device, old(self)@.io_base as int);
                &&& r == Ok::<(), AtaError>(())
                &&& final(self)@.ports.log == old(self)@.ports.log + sector_setup_log(
                    old(self)@.io_base,
                    lba,
                    0x20,
                )
                &&& forall|j: int|
                    0 <= j < 512 ==> final(buffer)@[j] == if j % 2 == 0 {
                        (word % 0x100) as u8
                    } else {
                        (word / 0x100) as u8
                    }
                &&& forall|j: int| 512 <= j < old(buffer)@.len() ==> final(buffer)@[j] == old(buffer)@[j]
            },
    {
        if buffer.len() < 512 {
            return Err(AtaError::BufferTooSmall);
        }

        self.stage_sector(lba, 0x20);  // READ SECTOR

        let status_port = self.io_base + 7;
        let ghost staged = self@;
        let mut attempts: usize = 0;
        while attempts < 100000
            invariant
                self@ == staged,
                status_port == self@.io_base + 7,
                self.wf(),
            ensures
                self@ == staged,
                self.wf(),
            decreases 100000 - attempts,
        {
            let s = self.ports.read8(status_port);
            if s & 0x08 != 0 {
                break ;
            }
            attempts = attempts + 1;
        }

        let ghost word = port_word(old(self)@.ports.device, old(self)@.io_base as int);
        let mut i: usize = 0;
        while i < 256
            invariant
                i <= 256,
                self@ == staged,
                self.wf(),
                self@.ports.device == old(self)@.ports.device,
                self@.io_base == old(self)@.io_base,
                word == port_word(old(self)@.ports.device, old(self)@.io_base as int),
                buffer@.len() == old(buffer)@.len(),
                buffer@.len() >= 512,
                forall|j: int|
                    0 <= j < 2 * i ==> buffer@[j] == if j % 2 == 0 {
                        (word % 0x100) as u8
                    } else {
                        (word / 0x100) as u8
                    },
                forall|j: int| 2 * i <= j < buffer@.len() ==> buffer@[j] == old(buffer)@[j],
            decreases 256 - i,
        {
            let value = self.ports.read16(self.io_base);
            buffer.set(i * 2, (value % 0x100) as u8);
            buffer.set(i * 2 + 1, (value / 0x100) as u8);
            i = i + 1;
        }
        Ok(())
    }

    /// Write a single 512-byte sector from the front of `buffer` using
    /// programmed I/O. Fails `BufferTooSmall`, changing nothing, when
    /// `buffer` holds fewer than 512 bytes; otherwise stages the transfer
    /// and pushes the sector's 256 words out of the buffer, low byte
    /// first.
    pub fn write_sector(&mut self, lba: u32, buffer: &[u8]) -> (r: Result<(), AtaError>)
        requires
            old(self).wf(),
        ensures
            final(self).wf(),
            final(self)@.ports.device == old(self)@.ports.device,
            final(self)@.io_base == old(self)@.io_base,
            final(self)@.control_base == old(self)@.control_base,
            final(self)@.bus_master_base == old(self)@.bus_master_base,
            buffer@.len() < 512 ==> r == Err::<(), AtaError>(AtaError::BufferTooSmall) && final(self)@ == old(self)@,
            buffer@.len() >= 512 ==> r == Ok::<(), AtaError>(()) && final(self)@.ports.log == old(self)@.ports.log + sector_setup_log(old(self)@.io_base, lba, 0x30) + sector_data_log(
                old(self)@.io_base,
                buffer@,
            ),
    {
        if buffer.len() < 512 {
            return Err(AtaError::BufferTooSmall);
        }

        self.stage_sector(lba, 0x30);  // WRITE SECTOR

        let ghost setup = old(self)@.ports.log + sector_setup_log(old(self)@.io_base, lba, 0x30);
        let mut i: usize = 0;
        while i < 256
            invariant
                i <= 256,
                self.wf(),
                buffer@.len() >= 512,
                self@.ports.device == old(self)@.ports.device,
                self@.io_base == old(self)@.io_base,
                self@.control_base == old(self)@.control_base,
                self@.bus_master_base == old(self)@.bus_master_base,
                self@.ports.log == setup + sector_data_log(old(self)@.io_base, buffer@).take(
                    i as int,
                ),
            decreases 256 - i,
        {
            let lo = buffer[i * 2] as u16;
            let hi = buffer[i * 2 + 1] as u16;
            self.ports.write16(self.io_base, lo + hi * 0x100);
            proof {
                assert(self@.ports.log =~= setup + sector_data_log(
                    old(self)@.io_base,
                    buffer@,
                ).take(i as int + 1));
            }
            i = i + 1;
        }
        proof {
            assert(sector_data_log(old(self)@.io_base, buffer@).take(256) =~= sector_data_log(
                old(self)@.io_base,
                buffer@,
            ));
        }
        Ok(())
    }

    /// Stage a one-sector transfer: the five addressing writes and the
    /// command byte.
    fn stage_sector(&mut self, lba: u32, cmd: u8)
        requires
            old(self).wf(),
        ensures
            final(self).wf(),
            final(self)@.ports.device == old(self)@.ports.device,
            final(self)@.io_base == old(self)@.io_base,
            final(self)@.control_base == old(self)@.control_base,
            final(self)@.bus_master_base == old(self)@.bus_master_base,
            final(self)@.ports.log == old(self)@.ports.log + sector_setup_log(
                old(self)@.io_base,
                lba,
                cmd,
            ),
    {
        self.ports.write8(self.io_base + 2, 1);
        self.ports.write8(self.io_base + 3, (lba & 0xFF) as u8);
        self.ports.write8(self.io_base + 4, ((lba >> 8u32) & 0xFF) as u8);
        self.ports.write8(self.io_base + 5, ((lba >> 16u32) & 0xFF) as u8);
        self.ports.write8(self.io_base + 6, 0xE0 | (((lba >> 24u32) & 0x0F) as u8));
        self.ports.write8(self.io_base + 7, cmd);
        proof {
            assert(self@.ports.log =~= old(self)@.ports.log + sector_setup_log(
                old(self)@.io_base,
                lba,
                cmd,
            ));
        }
    }

    /// Record the bus-master register base for DMA transfers.
    pub fn setup_dma(&mut self, bus_master_base: u16)
        requires
            old(self).wf(),
        ensures
            final(self).wf(),
            final(self)@ == (AtaModel {
                ports: old(self)@.ports,
                io_base: old(self)@.io_base,
                control_base: old(self)@.control_base,
                bus_master_base: Some(bus_master_base),
            }),
    {
        self.bus_master_base = Some(bus_master_base);
        proof {
            assert(self@ =~~= (AtaModel {
                ports: old(self)@.ports,
                io_base: old(self)@.io_base,
                control_base: old(self)@.control_base,
                bus_master_base: Some(bus_master_base),
            }));
        }
    }

    /// Read multiple sectors via DMA: still a skeleton that succeeds
    /// without touching the device or the buffer.
    pub fn read_dma(&mut self, _lba: u32, _sectors: u16, buffer: &mut Vec<u8>) -> (r: Result<
        (),
        AtaError,
    >)
        requires
            old(self).wf(),
        ensures
            final(self).wf(),
            r == Ok::<(), AtaError>(()),
            final(self)@ == old(self)@,
            final(buffer)@ == old(buffer)@,
    {
        Ok(())
    }

    /// Write multiple sectors via DMA: still a skeleton that succeeds
    /// without touching the device.
    pub fn write_dma(&mut self, _lba: u32, _sectors: u16, _buffer: &[u8]) -> (r: Result<(), AtaError>)
        requires
            old(self).wf(),
        ensures
            final(self).wf(),
            r == Ok::<(), AtaError>(()),
            final(self)@ == old(self)@,
    {
        Ok(())
    }
}

} // verus!
