//! High-definition-audio controller driver skeleton.
//!
//! Reset cycles the global-control register and polls it with a bounded
//! retry budget in each direction; codec discovery then reads the fifteen
//! presence registers. Register access goes by byte offset from the
//! controller's base, truncated into the port window the way the hardware
//! decodes it.

use vstd::prelude::*;

use crate::regs::{PortModel, PortRegisters, PortWidth, PortWrite, port_dword};

verus! {

/// Byte offset of the global-control register.
pub const HDA_GLOBAL_CONTROL: u32 = 0x08;

/// Byte offset of the first codec-presence register; one per codec,
/// four bytes apart.
pub const HDA_CODEC_PRESENCE: u32 = 0x60;

/// Byte offset of the first stream bank; one 0x20-byte bank per stream,
/// with the buffer address at +0x18 and its length at +0x1C.
pub const HDA_STREAM_BASE: u32 = 0x80;

/// Number of codec slots the controller reports on.
pub const CODEC_SLOTS: usize = 15;

/// The port a byte offset from the controller base decodes to: the sum,
/// truncated to the 16-bit port space.
pub open spec fn hda_port(base: u32, offset: u32) -> u16 {
    ((base + offset) % 0x10000) as u16
}

/// Mathematical content of the driver: port window, base address and the
/// codec-presence table.
#[verifier::ext_equal]
pub ghost struct HdaModel {
    pub ports: PortModel,
    pub base: u32,
    pub codecs: Seq<bool>,
}

impl HdaModel {
    /// Well-formedness: the window covers the port space and the presence
    /// table has one entry per codec slot.
    pub open spec fn wf(self) -> bool {
        &&& self.ports.device.len() == 0x10000
        &&& self.codecs.len() == CODEC_SLOTS
    }
}

/// Driver errors.
#[derive(Clone, Copy, Debug, PartialEq, Eq, Structural)]
pub enum HdaError {
    Timeout,
    InvalidStream,
}

impl HdaError {
    /// A short description of the error.
    pub fn as_str(&self) -> (r: &'static str)
        ensures
            self is Timeout ==> r@ == "HDA reset timeout"@,
            self is InvalidStream ==> r@ == "Invalid stream index"@,
    {
        match self {
            HdaError::Timeout => "HDA reset timeout",
            HdaError::InvalidStream => "Invalid stream index",
        }
    }
}

/// The presence table `init` reads back: bit 0 of each slot's presence
/// register.
pub open spec fn spec_codecs(device: Seq<u8>, base: u32) -> Seq<bool> {
    Seq::new(
        CODEC_SLOTS as nat,
        |i: int| port_dword(device, hda_port(base, (HDA_CODEC_PRESENCE + 4 * i) as u32) as int) & 1
            != 0,
    )
}

/// HDA driver structure.
pub struct HdaDriver {
    pub base: u32,
    ports: PortRegisters,
    codecs: Vec<bool>,
}

impl View for HdaDriver {
    type V = HdaModel;

    closed spec fn view(&self) -> HdaModel {
        HdaModel { ports: self.ports@, base: self.base, codecs: self.codecs@ }
    }
}

impl HdaDriver {
    /// Well-formedness of the driver's model.
    pub open spec fn wf(&self) -> bool {
        self@.wf()
    }

    /// Create a new driver over the register window at `base`: no codec
    /// marked present, no port write issued.
    pub fn new(base: u32) -> (r: HdaDriver)
        ensures
            r.wf(),
            r@.base == base,
            r@.ports.log.len() == 0,
            forall|i: int| 0 <= i < 0x10000 ==> r@.ports.device[i] == 0u8,
            forall|i: int| 0 <= i < CODEC_SLOTS ==> r@.codecs[i] == false,
    {
        let mut codecs: Vec<bool> = Vec::new();
        let mut i: usize = 0;
        while i < CODEC_SLOTS
            invariant
                i <= CODEC_SLOTS,
                codecs@.len() == i,
                forall|j: int| 0 <= j < i ==> codecs@[j] == false,
            decreases CODEC_SLOTS - i,
        {
            codecs.push(false);
            i = i + 1;
        }
        HdaDriver { base, ports: PortRegisters::new(), codecs }
    }

    /// The driver's port window, for inspecting the write log.
    pub fn ports(&self) -> (r: &PortRegisters)
        ensures
            r@ == self@.ports,
    {
        &self.ports
    }

    /// Device side: present a 32-bit value at `port`, low byte first, as
    /// the controller or a simulation double would.
    pub fn device_set_port32(&mut self, port: u16, value: u32)
        requires
            old(self).wf(),
        ensures
            final(self).wf(),
            final(self)@.ports.log == old(self)@.ports.log,
            final(self)@.base == old(self)@.base,
            final(self)@.codecs == old(self)@.codecs,
            final(self)@.ports.device == old(self)@.ports.device
                .update(port as int, (value % 0x100) as u8)
                .update((port as int + 1) % 0x10000, ((value / 0x100) % 0x100) as u8)
                .update((port as int + 2) % 0x10000, ((value / 0x10000) % 0x100) as u8)
                .update((port as int + 3) % 0x10000, (value / 0x1000000) as u8),
    {
        self.ports.device_set32(port, value);
        proof {
            assert((port as int + 1) % 0x10000 == crate::regs::port_next(port as int));
            assert((port as int + 2) % 0x10000 == crate::regs::port_next(
                crate::regs::port_next(port as int),
            )) by {
                vstd::arithmetic::div_mod::lemma_add_mod_noop(port as int + 1, 1, 0x10000);
            }
            assert((port as int + 3) % 0x10000 == crate::regs::port_next(
                crate::regs::port_next(crate::regs::port_next(port as int)),
            )) by {
                vstd::arithmetic::div_mod::lemma_add_mod_noop(port as int + 1, 1, 0x10000);
                vstd::arithmetic::div_mod::lemma_add_mod_noop(port as int + 2, 1, 0x10000);
            }
        }
    }

    /// The port a byte offset from this controller's base decodes to.
    fn port_at(&self, offset: u32) -> (r: u16)
        requires
            offset <= 0x1000,
        ensures
            r == hda_port(self@.base, offset),
    {
        (((self.base as u64) + (offset as u64)) % 0x10000) as u16
    }

    /// Initialize the controller and discover codecs. Fails `Timeout`,
    /// with the two reset writes issued but the presence table untouched,
    /// when the global-control register never reads back ready (bit 0
    /// set); otherwise the presence table holds bit 0 of every slot's
    /// presence register.
    pub fn init(&mut self) -> (r: Result<(), HdaError>)
        requires
            old(self).wf(),
        ensures
            final(self).wf(),
            final(self)@.base == old(self)@.base,
            final(self)@.ports.device == old(self)@.ports.device,
            final(self)@.ports.log == old(self)@.ports.log.push(
                PortWrite {
                    port: hda_port(old(self)@.base, HDA_GLOBAL_CONTROL),
                    width: PortWidth::Dword,
                    value: 0,
                },
            ).push(
                PortWrite {
                    port: hda_port(old(self)@.base, HDA_GLOBAL_CONTROL),
                    width: PortWidth::Dword,
                    value: 1,
                },
            ),
            port_dword(
                old(self)@.ports.device,
                hda_port(old(self)@.base, HDA_GLOBAL_CONTROL) as int,
            ) & 1 == 1 ==> r == Ok::<(), HdaError>(()) && final(self)@.codecs == spec_codecs(
                old(self)@.ports.device,
                old(self)@.base,
            ),
            port_dword(
                old(self)@.ports.device,
                hda_port(old(self)@.base, HDA_GLOBAL_CONTROL) as int,
            ) & 1 != 1 ==> r == Err::<(), HdaError>(HdaError::Timeout) && final(self)@.codecs
                == old(self)@.codecs,
    {
        match self.reset_controller() {
            Ok(()) => {},
            Err(e) => {
                return Err(e);
            },
        }
        self.discover_codecs();
        Ok(())
    }

    /// Perform controller reset: write the global-control register low,
    /// poll until it reads low, write it high, poll until it reads high,
    /// each poll bounded at 1000 tries.
    fn reset_controller(&mut self) -> (r: Result<(), HdaError>)
        requires
            old(self).wf(),
        ensures
            final(self).wf(),
            final(self)@.base == old(self)@.base,
            final(self)@.codecs == old(self)@.codecs,
            final(self)@.ports.device == old(self)@.ports.device,
            final(self)@.ports.log == old(self)@.ports.log.push(
                PortWrite {
                    port: hda_port(old(self)@.base, HDA_GLOBAL_CONTROL),
                    width: PortWidth::Dword,
                    value: 0,
                },
            ).push(
                PortWrite {
                    port: hda_port(old(self)@.base, HDA_GLOBAL_CONTROL),
                    width: PortWidth::Dword,
                    value: 1,
                },
            ),
            r == if port_dword(
                old(self)@.ports.device,
                hda_port(old(self)@.base, HDA_GLOBAL_CONTROL) as int,
            ) & 1 == 1 {
                Ok::<(), HdaError>(())
            } else {
                Err::<(), HdaError>(HdaError::Timeout)
            },
    {
        let gctl = self.port_at(HDA_GLOBAL_CONTROL);
        self.ports.write32(gctl, 0);
        let mut attempts: usize = 0;
        while attempts < 1000
            invariant
                old(self).wf(),
                self.base == old(self)@.base,
                gctl == hda_port(old(self)@.base, HDA_GLOBAL_CONTROL),
                self.codecs@ == old(self)@.codecs,
                self.ports.wf(),
                self.ports@.device == old(self)@.ports.device,
                self.ports@.log == old(self)@.ports.log.push(
                    PortWrite { port: gctl, width: PortWidth::Dword, value: 0 },
                ),
            decreases 1000 - attempts,
        {
            if self.ports.read32(gctl) & 1 == 0 {
                break ;
            }
            attempts = attempts + 1;
        }
        self.ports.write32(gctl, 1);
        let mut attempts2: usize = 0;
        while attempts2 < 1000
            invariant
                old(self).wf(),
                attempts2 > 0 ==> port_dword(old(self)@.ports.device, gctl as int) & 1 != 1,
                self.base == old(self)@.base,
                gctl == hda_port(old(self)@.base, HDA_GLOBAL_CONTROL),
                self.codecs@ == old(self)@.codecs,
                self.ports.wf(),
                self.ports@.device == old(self)@.ports.device,
                self.ports@.log == old(self)@.ports.log.push(
                    PortWrite { port: gctl, width: PortWidth::Dword, value: 0 },
                ).push(PortWrite { port: gctl, width: PortWidth::Dword, value: 1 }),
            ensures
                port_dword(old(self)@.ports.device, gctl as int) & 1 != 1,
                self.base == old(self)@.base,
                self.codecs@ == old(self)@.codecs,
                self.ports.wf(),
                self.ports@.device == old(self)@.ports.device,
                self.ports@.log == old(self)@.ports.log.push(
                    PortWrite { port: gctl, width: PortWidth::Dword, value: 0 },
                ).push(PortWrite { port: gctl, width: PortWidth::Dword, value: 1 }),
            decreases 1000 - attempts2,
        {
            if self.ports.read32(gctl) & 1 == 1 {
                return Ok(());
            }
            attempts2 = attempts2 + 1;
        }
        Err(HdaError::Timeout)
    }

    /// Detect available codecs: read bit 0 of each slot's presence
    /// register into the table.
    fn discover_codecs(&mut self)
        requires
            old(self).wf(),
        ensures
            final(self).wf(),
            final(self)@.base == old(self)@.base,
            final(self)@.ports == old(self)@.ports,
            final(self)@.codecs == spec_codecs(old(self)@.ports.device, old(self)@.base),
    {
        let mut i: usize = 0;
        while i < CODEC_SLOTS
            invariant
                old(self).wf(),
                i <= CODEC_SLOTS,
                self.base == old(self)@.base,
                self.ports.wf(),
                self.ports@ == old(self)@.ports,
                self.codecs@.len() == CODEC_SLOTS,
                forall|j: int|
                    0 <= j < i ==> self.codecs@[j] == spec_codecs(
                        old(self)@.ports.device,
                        old(self)@.base,
                    )[j],
            decreases CODEC_SLOTS - i,
        {
            let offset = HDA_CODEC_PRESENCE + (i as u32) * 4;
            let port = self.port_at(offset);
            let presence = self.ports.read32(port) & 0x1;
            self.codecs.set(i, presence != 0);
            i = i + 1;
        }
        proof {
            assert(self.codecs@ =~= spec_codecs(old(self)@.ports.device, old(self)@.base));
        }
    }

    /// Get codec presence information: one flag per codec slot.
    pub fn codecs(&self) -> (r: &Vec<bool>)
        ensures
            r@ == self@.codecs,
    {
        &self.codecs
    }

    /// Program an output stream's buffer: write the buffer address and
    /// length to the stream's bank. Fails `InvalidStream`, changing
    /// nothing, for a stream index beyond the controller's fifteen.
    pub fn setup_stream(&mut self, stream: usize, buffer_addr: u32, length: u32) -> (r: Result<
        (),
        HdaError,
    >)
        requires
            old(self).wf(),
        ensures
            final(self).wf(),
            final(self)@.base == old(self)@.base,
            final(self)@.codecs == old(self)@.codecs,
            final(self)@.ports.device == old(self)@.ports.device,
            stream >= CODEC_SLOTS ==> r == Err::<(), HdaError>(HdaError::InvalidStream) && final(self)@ == old(self)@,
            stream < CODEC_SLOTS ==> r == Ok::<(), HdaError>(()) && final(self)@.ports.log == old(self)@.ports.log.push(
                PortWrite {
                    port: hda_port(
                        old(self)@.base,
                        (HDA_STREAM_BASE + stream * 0x20 + 0x18) as u32,
                    ),
                    width: PortWidth::Dword,
                    value: buffer_addr,
                },
            ).push(
                PortWrite {
                    port: hda_port(
                        old(self)@.base,
                        (HDA_STREAM_BASE + stream * 0x20 + 0x1C) as u32,
                    ),
                    width: PortWidth::Dword,
                    value: length,
                },
            ),
    {
        if stream >= CODEC_SLOTS {
            return Err(HdaError::InvalidStream);
        }
        proof {
            let st = stream as u32;
            assert(st * 0x20 <= 14 * 0x20) by (nonlinear_arith)
                requires
                    st <= 14,
            ;
        }
        let bank = HDA_STREAM_BASE + (stream as u32) * 0x20;
        let addr_port = self.port_at(bank + 0x18);
        self.ports.write32(addr_port, buffer_addr);
        let len_port = self.port_at(bank + 0x1C);
        self.ports.write32(len_port, length);
        Ok(())
    }
}

} // verus!
