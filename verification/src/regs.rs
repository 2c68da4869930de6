//! Register access.
//!
//! A device is driven through exactly two primitives — `read(location)` and
//! `write(location, value)` — over one of two transports: a memory-mapped
//! window addressed by byte offset, or a port window addressed by 16-bit
//! port number with per-width accessors.
//!
//! A window keeps the two directions of that traffic apart, the way the
//! hardware does: a *read plane* holds the values the device presents, and
//! is written only from the device side (`device_set*`, the half a
//! simulation double or an interrupt-time mirror plays); a *write log*
//! records every software write, in program order and without elision, so
//! a contract can name the exact register traffic an operation emits and
//! an unverified shim can replay it onto real silicon.

use vstd::prelude::*;

verus! {

/// One software write into a memory-mapped window: a byte offset and the
/// 32-bit value stored there.
#[derive(Clone, Copy, Debug, PartialEq, Eq, Structural)]
pub struct MmioWrite {
    pub offset: u32,
    pub value: u32,
}

/// Mathematical content of a memory-mapped register window.
#[verifier::ext_equal]
pub ghost struct MmioModel {
    /// Physical base address the window was constructed over.
    pub base: usize,
    /// Read plane: the 32-bit word the device presents at each word index
    /// (byte offset divided by four).
    pub device: Seq<u32>,
    /// Every software write so far, oldest first.
    pub log: Seq<MmioWrite>,
}

/// A memory-mapped register window: `words` 32-bit registers starting at a
/// base address, read from the device plane, written to the log.
pub struct MmioRegisters {
    base: usize,
    device: Vec<u32>,
    log: Vec<MmioWrite>,
}

impl View for MmioRegisters {
    type V = MmioModel;

    closed spec fn view(&self) -> MmioModel {
        MmioModel { base: self.base, device: self.device@, log: self.log@ }
    }
}

impl MmioRegisters {
    /// A fresh window over `base` covering `words` 32-bit registers, with a
    /// zeroed read plane and an empty write log.
    pub fn new(base: usize, words: usize) -> (r: MmioRegisters)
        ensures
            r@.base == base,
            r@.device.len() == words,
            forall|i: int| 0 <= i < words ==> r@.device[i] == 0u32,
            r@.log.len() == 0,
    {
        let mut device: Vec<u32> = Vec::new();
        let mut i: usize = 0;
        while i < words
            invariant
                i <= words,
                device@.len() == i,
                forall|j: int| 0 <= j < i ==> device@[j] == 0u32,
            decreases words - i,
        {
            device.push(0);
            i = i + 1;
        }
        MmioRegisters { base, device, log: Vec::new() }
    }

    /// The base address the window was constructed over.
    pub fn base(&self) -> (r: usize)
        ensures
            r == self@.base,
    {
        self.base
    }

    /// Number of 32-bit registers in the window.
    pub fn words(&self) -> (r: usize)
        ensures
            r == self@.device.len(),
    {
        self.device.len()
    }

    /// Read the register at byte offset `offset`: the value the device
    /// currently presents there.
    pub fn read(&self, offset: u32) -> (r: u32)
        requires
            offset / 4 < self@.device.len(),
        ensures
            r == self@.device[offset as int / 4],
    {
        self.device[(offset / 4) as usize]
    }

    /// Write `value` to the register at byte offset `offset`. The write is
    /// appended to the log; it does not disturb what the device presents.
    pub fn write(&mut self, offset: u32, value: u32)
        requires
            offset / 4 < old(self)@.device.len(),
        ensures
            final(self)@.log == old(self)@.log.push(MmioWrite { offset, value }),
            final(self)@.device == old(self)@.device,
            final(self)@.base == old(self)@.base,
    {
        self.log.push(MmioWrite { offset, value });
    }

    /// Device side: present `value` at byte offset `offset`. This is the
    /// half of the protocol the hardware (or its simulation double) plays.
    pub fn device_set(&mut self, offset: u32, value: u32)
        requires
            offset / 4 < old(self)@.device.len(),
        ensures
            final(self)@.device == old(self)@.device.update(offset as int / 4, value),
            final(self)@.log == old(self)@.log,
            final(self)@.base == old(self)@.base,
    {
        self.device.set((offset / 4) as usize, value);
    }

    /// The software writes issued so far, oldest first.
    pub fn write_log(&self) -> (r: &Vec<MmioWrite>)
        ensures
            r@ == self@.log,
    {
        &self.log
    }
}

/// The width of one port access.
#[derive(Clone, Copy, Debug, PartialEq, Eq, Structural)]
pub enum PortWidth {
    Byte,
    Word,
    Dword,
}

/// One software write to an I/O port: port number, access width, and the
/// written value (zero-extended to 32 bits).
#[derive(Clone, Copy, Debug, PartialEq, Eq, Structural)]
pub struct PortWrite {
    pub port: u16,
    pub width: PortWidth,
    pub value: u32,
}

/// Mathematical content of a port window.
#[verifier::ext_equal]
pub ghost struct PortModel {
    /// Read plane: the byte the device presents at each of the 65536 ports.
    /// Multi-byte reads compose consecutive ports little-endian, wrapping
    /// at the top of the port space.
    pub device: Seq<u8>,
    /// Every software write so far, oldest first.
    pub log: Seq<PortWrite>,
}

/// The port immediately after `p`, wrapping at the top of the 16-bit port
/// space.
pub open spec fn port_next(p: int) -> int {
    (p + 1) % 0x10000
}

/// The 16-bit value a port window presents at `port`: two consecutive
/// device bytes, little-endian.
pub open spec fn port_word(device: Seq<u8>, port: int) -> u16
    recommends
        device.len() == 0x10000,
        0 <= port < 0x10000,
{
    (device[port] + device[port_next(port)] * 0x100) as u16
}

/// The 32-bit value a port window presents at `port`: four consecutive
/// device bytes, little-endian.
pub open spec fn port_dword(device: Seq<u8>, port: int) -> u32
    recommends
        device.len() == 0x10000,
        0 <= port < 0x10000,
{
    (device[port] + device[port_next(port)] * 0x100
        + device[port_next(port_next(port))] * 0x10000
        + device[port_next(port_next(port_next(port)))] * 0x1000000) as u32
}

/// A port-mapped register window covering the whole 16-bit port space,
/// read from the device plane, written to the log.
pub struct PortRegisters {
    device: Vec<u8>,
    log: Vec<PortWrite>,
}

impl View for PortRegisters {
    type V = PortModel;

    closed spec fn view(&self) -> PortModel {
        PortModel { device: self.device@, log: self.log@ }
    }
}

impl PortRegisters {
    /// The read plane always covers every port.
    pub open spec fn wf(&self) -> bool {
        self@.device.len() == 0x10000
    }

    /// A fresh port window with a zeroed read plane and an empty log.
    pub fn new() -> (r: PortRegisters)
        ensures
            r.wf(),
            forall|i: int| 0 <= i < 0x10000 ==> r@.device[i] == 0u8,
            r@.log.len() == 0,
    {
        let mut device: Vec<u8> = Vec::new();
        let mut i: usize = 0;
        while i < 0x10000
            invariant
                i <= 0x10000,
                device@.len() == i,
                forall|j: int| 0 <= j < i ==> device@[j] == 0u8,
            decreases 0x10000 - i,
        {
            device.push(0);
            i = i + 1;
        }
        PortRegisters { device, log: Vec::new() }
    }

    /// Read one byte from `port`.
    pub fn read8(&self, port: u16) -> (r: u8)
        requires
            self.wf(),
        ensures
            r == self@.device[port as int],
    {
        self.device[port as usize]
    }

    /// Read a 16-bit value from `port`, composing two device bytes
    /// little-endian.
    pub fn read16(&self, port: u16) -> (r: u16)
        requires
            self.wf(),
        ensures
            r == port_word(self@.device, port as int),
    {
        let lo = self.device[port as usize] as u16;
        let hi = self.device[(port as usize + 1) % 0x10000] as u16;
        lo + hi * 0x100
    }

    /// Read a 32-bit value from `port`, composing four device bytes
    /// little-endian.
    pub fn read32(&self, port: u16) -> (r: u32)
        requires
            self.wf(),
        ensures
            r == port_dword(self@.device, port as int),
    {
        let b0 = self.device[port as usize] as u32;
        let b1 = self.device[(port as usize + 1) % 0x10000] as u32;
        let b2 = self.device[(port as usize + 2) % 0x10000] as u32;
        let b3 = self.device[(port as usize + 3) % 0x10000] as u32;
        b0 + b1 * 0x100 + b2 * 0x10000 + b3 * 0x1000000
    }

    /// Write one byte to `port`.
    pub fn write8(&mut self, port: u16, value: u8)
        requires
            old(self).wf(),
        ensures
            final(self).wf(),
            final(self)@.log == old(self)@.log.push(
                PortWrite { port, width: PortWidth::Byte, value: value as u32 },
            ),
            final(self)@.device == old(self)@.device,
    {
        self.log.push(PortWrite { port, width: PortWidth::Byte, value: value as u32 });
    }

    /// Write a 16-bit value to `port`.
    pub fn write16(&mut self, port: u16, value: u16)
        requires
            old(self).wf(),
        ensures
            final(self).wf(),
            final(self)@.log == old(self)@.log.push(
                PortWrite { port, width: PortWidth::Word, value: value as u32 },
            ),
            final(self)@.device == old(self)@.device,
    {
        self.log.push(PortWrite { port, width: PortWidth::Word, value: value as u32 });
    }

    /// Write a 32-bit value to `port`.
    pub fn write32(&mut self, port: u16, value: u32)
        requires
            old(self).wf(),
        ensures
            final(self).wf(),
            final(self)@.log == old(self)@.log.push(
                PortWrite { port, width: PortWidth::Dword, value },
            ),
            final(self)@.device == old(self)@.device,
    {
        self.log.push(PortWrite { port, width: PortWidth::Dword, value });
    }

    /// Device side: present one byte at `port`.
    pub fn device_set8(&mut self, port: u16, value: u8)
        requires
            old(self).wf(),
        ensures
            final(self).wf(),
            final(self)@.device == old(self)@.device.update(port as int, value),
            final(self)@.log == old(self)@.log,
    {
        self.device.set(port as usize, value);
    }

    /// Device side: present a 16-bit value at `port`, low byte first.
    pub fn device_set16(&mut self, port: u16, value: u16)
        requires
            old(self).wf(),
        ensures
            final(self).wf(),
            final(self)@.device == old(self)@.device
                .update(port as int, (value % 0x100) as u8)
                .update(port_next(port as int), (value / 0x100) as u8),
            final(self)@.log == old(self)@.log,
    {
        self.device.set(port as usize, (value % 0x100) as u8);
        self.device.set((port as usize + 1) % 0x10000, (value / 0x100) as u8);
    }

    /// Device side: present a 32-bit value at `port`, low byte first.
    pub fn device_set32(&mut self, port: u16, value: u32)
        requires
            old(self).wf(),
        ensures
            final(self).wf(),
            final(self)@.device == old(self)@.device
                .update(port as int, (value % 0x100) as u8)
                .update(port_next(port as int), ((value / 0x100) % 0x100) as u8)
                .update(port_next(port_next(port as int)), ((value / 0x10000) % 0x100) as u8)
                .update(
                    port_next(port_next(port_next(port as int))),
                    (value / 0x1000000) as u8,
                ),
            final(self)@.log == old(self)@.log,
    {
        self.device.set(port as usize, (value % 0x100) as u8);
        self.device.set((port as usize + 1) % 0x10000, ((value / 0x100) % 0x100) as u8);
        self.device.set((port as usize + 2) % 0x10000, ((value / 0x10000) % 0x100) as u8);
        self.device.set((port as usize + 3) % 0x10000, (value / 0x1000000) as u8);
    }

    /// The software writes issued so far, oldest first.
    pub fn write_log(&self) -> (r: &Vec<PortWrite>)
        ensures
            r@ == self@.log,
    {
        &self.log
    }
}

} // verus!
