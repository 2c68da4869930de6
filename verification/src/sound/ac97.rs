//! Audio codec driver for the two-bank mixer/bus-master port layout.
//!
//! The codec is driven through two port banks: the native audio mixer at
//! `nam_base` (codec registers: reset, volumes, sample rate) and the
//! native audio bus master at `nabm_base` (playback control). Reset polls
//! the codec-ready register with a bounded retry budget and is the one
//! place a timeout is enforced.

use vstd::prelude::*;

use crate::regs::{PortModel, PortRegisters, PortWidth, PortWrite, port_word};

verus! {

/// Codec register offsets in the mixer bank: reset/ready, master volume,
/// PCM output volume, extended-audio id and status, and the front DAC
/// sample rate.
pub const AC97_RESET: u16 = 0x00;

pub const AC97_MASTER_VOLUME: u16 = 0x02;

pub const AC97_PCM_OUT_VOLUME: u16 = 0x18;

pub const AC97_EXTENDED_ID: u16 = 0x28;

pub const AC97_EXTENDED_STATUS: u16 = 0x2A;

pub const AC97_PCM_FRONT_DAC_RATE: u16 = 0x2C;

/// Playback control register offset in the bus-master bank.
pub const NABM_CONTROL: u16 = 0x1B;

/// One buffer descriptor of the bus master's descriptor list.
#[derive(Clone, Copy, Debug, PartialEq, Eq, Structural)]
pub struct BufferDescriptor {
    pub addr: u32,
    pub samples: u16,
    pub flags: u16,
}

/// Mathematical content of the driver: port window, the two bank bases,
/// the state flag and the (still empty) descriptor list.
#[verifier::ext_equal]
pub ghost struct Ac97Model {
    pub ports: PortModel,
    pub nam_base: u16,
    pub nabm_base: u16,
    pub initialized: bool,
    pub buffer_descriptors: Seq<BufferDescriptor>,
}

impl Ac97Model {
    /// Well-formedness: the window covers the port space and both bank
    /// bases leave room for their registers.
    pub open spec fn wf(self) -> bool {
        &&& self.ports.device.len() == 0x10000
        &&& self.nam_base <= 0xFF00
        &&& self.nabm_base <= 0xFF00
    }
}

/// Sound driver errors.
#[derive(Clone, Copy, Debug, PartialEq, Eq, Structural)]
pub enum SoundError {
    CodecTimeout,
    NotInitialized,
    InvalidSampleRate,
    BufferOverflow,
    DMAError,
}

impl SoundError {
    /// A short description of the error.
    pub fn as_str(&self) -> (r: &'static str)
        ensures
            self is CodecTimeout ==> r@ == "Codec timeout"@,
            self is NotInitialized ==> r@ == "Driver not initialized"@,
            self is InvalidSampleRate ==> r@ == "Invalid sample rate"@,
            self is BufferOverflow ==> r@ == "Buffer overflow"@,
            self is DMAError ==> r@ == "DMA error"@,
    {
        match self {
            SoundError::CodecTimeout => "Codec timeout",
            SoundError::NotInitialized => "Driver not initialized",
            SoundError::InvalidSampleRate => "Invalid sample rate",
            SoundError::BufferOverflow => "Buffer overflow",
            SoundError::DMAError => "DMA error",
        }
    }
}

/// The port writes a successful `init` issues when the codec supports
/// variable-rate audio (`ext_id` has bit 0 set): reset, both volumes,
/// variable-rate enable, then 48 kHz on the front DAC.
pub open spec fn init_log(nam_base: u16, ext_id: u16) -> Seq<PortWrite> {
    let base = seq![
        PortWrite { port: (nam_base + AC97_RESET) as u16, width: PortWidth::Word, value: 0 },
        PortWrite {
            port: (nam_base + AC97_MASTER_VOLUME) as u16,
            width: PortWidth::Word,
            value: 0x0000,
        },
        PortWrite {
            port: (nam_base + AC97_PCM_OUT_VOLUME) as u16,
            width: PortWidth::Word,
            value: 0x0808,
        },
    ];
    if ext_id & 0x0001 != 0 {
        base + seq![
            PortWrite {
                port: (nam_base + AC97_EXTENDED_STATUS) as u16,
                width: PortWidth::Word,
                value: (ext_id | 0x0001) as u32,
            },
            PortWrite {
                port: (nam_base + AC97_PCM_FRONT_DAC_RATE) as u16,
                width: PortWidth::Word,
                value: 48000u16 as u32,
            },
        ]
    } else {
        base
    }
}

/// Audio codec driver over a port-mapped register window.
pub struct AC97Driver {
    nam_base: u16,
    nabm_base: u16,
    ports: PortRegisters,
    initialized: bool,
    buffer_descriptors: Vec<BufferDescriptor>,
}

impl View for AC97Driver {
    type V = Ac97Model;

    closed spec fn view(&self) -> Ac97Model {
        Ac97Model {
            ports: self.ports@,
            nam_base: self.nam_base,
            nabm_base: self.nabm_base,
            initialized: self.initialized,
            buffer_descriptors: self.buffer_descriptors@,
        }
    }
}

impl AC97Driver {
    /// Well-formedness of the driver's model.
    pub open spec fn wf(&self) -> bool {
        self@.wf()
    }

    /// Create a new driver instance over the two port banks; the driver
    /// starts uninitialized with an empty descriptor list and issues no
    /// port write.
    pub fn new(nam_base: u16, nabm_base: u16) -> (r: AC97Driver)
        requires
            nam_base <= 0xFF00,
            nabm_base <= 0xFF00,
        ensures
            r.wf(),
            r@.nam_base == nam_base,
            r@.nabm_base == nabm_base,
            !r@.initialized,
            r@.buffer_descriptors.len() == 0,
            r@.ports.log.len() == 0,
            forall|i: int| 0 <= i < 0x10000 ==> r@.ports.device[i] == 0u8,
    {
        AC97Driver {
            nam_base,
            nabm_base,
            ports: PortRegisters::new(),
            initialized: false,
            buffer_descriptors: Vec::new(),
        }
    }

    /// The mixer bank's base port.
    pub fn nam_base(&self) -> (r: u16)
        ensures
            r == self@.nam_base,
    {
        self.nam_base
    }

    /// The bus-master bank's base port.
    pub fn nabm_base(&self) -> (r: u16)
        ensures
            r == self@.nabm_base,
    {
        self.nabm_base
    }

    /// Whether `init` has completed.
    pub fn is_initialized(&self) -> (r: bool)
        ensures
            r == self@.initialized,
    {
        self.initialized
    }

    /// The driver's port window, for inspecting the write log.
    pub fn ports(&self) -> (r: &PortRegisters)
        ensures
            r@ == self@.ports,
    {
        &self.ports
    }

    /// Device side: present a 16-bit value at `port`, low byte first, as
    /// the codec or a simulation double would.
    pub fn device_set_port16(&mut self, port: u16, value: u16)
        requires
            old(self).wf(),
        ensures
            final(self).wf(),
            final(self)@.ports.device == old(self)@.ports.device
                .update(port as int, (value % 0x100) as u8)
                .update((port as int + 1) % 0x10000, (value / 0x100) as u8),
            final(self)@.ports.log == old(self)@.ports.log,
            final(self)@.nam_base == old(self)@.nam_base,
            final(self)@.nabm_base == old(self)@.nabm_base,
            final(self)@.initialized == old(self)@.initialized,
            final(self)@.buffer_descriptors == old(self)@.buffer_descriptors,
    {
        self.ports.device_set16(port, value);
    }

    /// Reset the codec: write the reset register, then poll it with a
    /// bounded retry budget until it no longer reads all-ones. Fails
    /// `CodecTimeout` when the codec never answers.
    fn reset_codec(&mut self) -> (r: Result<(), SoundError>)
        requires
            old(self).wf(),
        ensures
            final(self).wf(),
            final(self)@.ports.device == old(self)@.ports.device,
            final(self)@.ports.log == old(self)@.ports.log.push(
                PortWrite {
                    port: (old(self)@.nam_base + AC97_RESET) as u16,
                    width: PortWidth::Word,
                    value: 0,
                },
            ),
            final(self)@.nam_base == old(self)@.nam_base,
            final(self)@.nabm_base == old(self)@.nabm_base,
            final(self)@.initialized == old(self)@.initialized,
            final(self)@.buffer_descriptors == old(self)@.buffer_descriptors,
            r == if port_word(old(self)@.ports.device, old(self)@.nam_base + AC97_RESET)
                != 0xFFFF {
                Ok::<(), SoundError>(())
            } else {
                Err::<(), SoundError>(SoundError::CodecTimeout)
            },
    {
        let reset_port = self.nam_base + AC97_RESET;
        self.ports.write16(reset_port, 0);

        // Wait for codec ready
        let mut attempts: usize = 0;
        while attempts < 1000
            invariant
                old(self).wf(),
                attempts > 0 ==> port_word(old(self)@.ports.device, old(self)@.nam_base + AC97_RESET) == 0xFFFF,
                self.nam_base == old(self)@.nam_base,
                reset_port == self.nam_base + AC97_RESET,
                self.nabm_base == old(self)@.nabm_base,
                self.initialized == old(self)@.initialized,
                self.buffer_descriptors@ == old(self)@.buffer_descriptors,
                self.ports.wf(),
                self.ports@.device == old(self)@.ports.device,
                self.ports@.log == old(self)@.ports.log.push(
                    PortWrite {
                        port: (old(self)@.nam_base + AC97_RESET) as u16,
                        width: PortWidth::Word,
                        value: 0,
                    },
                ),
            ensures
                port_word(old(self)@.ports.device, old(self)@.nam_base + AC97_RESET) == 0xFFFF,
                self@.ports.device == old(self)@.ports.device,
                self@.ports.log == old(self)@.ports.log.push(
                    PortWrite {
                        port: (old(self)@.nam_base + AC97_RESET) as u16,
                        width: PortWidth::Word,
                        value: 0,
                    },
                ),
                self.nam_base == old(self)@.nam_base,
                self.nabm_base == old(self)@.nabm_base,
                self.initialized == old(self)@.initialized,
                self.buffer_descriptors@ == old(self)@.buffer_descriptors,
            decreases 1000 - attempts,
        {
            let status = self.ports.read16(reset_port);
            if status != 0xFFFF {
                return Ok(());
            }
            attempts = attempts + 1;
        }
        Err(SoundError::CodecTimeout)
    }

    /// Initialize the codec: reset it, set master and PCM volumes, and —
    /// when the codec advertises variable-rate audio — enable it and
    /// select 48 kHz. Fails `CodecTimeout`, after the reset write alone,
    /// when the codec never answers the reset poll.
    pub fn init(&mut self) -> (r: Result<(), SoundError>)
        requires
            old(self).wf(),
        ensures
            final(self).wf(),
            final(self)@.ports.device == old(self)@.ports.device,
            final(self)@.nam_base == old(self)@.nam_base,
            final(self)@.nabm_base == old(self)@.nabm_base,
            final(self)@.buffer_descriptors == old(self)@.buffer_descriptors,
            port_word(old(self)@.ports.device, old(self)@.nam_base + AC97_RESET) == 0xFFFF ==> r
                == Err::<(), SoundError>(SoundError::CodecTimeout) && final(self)@.initialized
                == old(self)@.initialized && final(self)@.ports.log == old(self)@.ports.log.push(
                PortWrite {
                    port: (old(self)@.nam_base + AC97_RESET) as u16,
                    width: PortWidth::Word,
                    value: 0,
                },
            ),
            port_word(old(self)@.ports.device, old(self)@.nam_base + AC97_RESET) != 0xFFFF ==> r
                == Ok::<(), SoundError>(()) && final(self)@.initialized && final(self)@.ports.log
                == old(self)@.ports.log + init_log(
                old(self)@.nam_base,
                port_word(old(self)@.ports.device, old(self)@.nam_base + AC97_EXTENDED_ID),
            ),
    {
        // Reset codec
        match self.reset_codec() {
            Ok(()) => {},
            Err(e) => {
                return Err(e);
            },
        }

        // Set volumes
        match self.set_master_volume(0x0000) {
            Ok(()) => {},
            Err(e) => {
                return Err(e);
            },
        }
        match self.set_pcm_volume(0x0808) {
            Ok(()) => {},
            Err(e) => {
                return Err(e);
            },
        }

        // Enable variable rate audio
        let ext_audio = self.ports.read16(self.nam_base + AC97_EXTENDED_ID);
        if ext_audio & 0x0001 != 0 {
            // Variable rate PCM supported
            self.ports.write16(self.nam_base + AC97_EXTENDED_STATUS, ext_audio | 0x0001);

            // Set sample rate to 48kHz
            match self.set_sample_rate(48000) {
                Ok(()) => {},
                Err(e) => {
                    return Err(e);
                },
            }
        }

        self.initialized = true;
        proof {
            assert(self@.ports.log =~= old(self)@.ports.log + init_log(
                old(self)@.nam_base,
                port_word(old(self)@.ports.device, old(self)@.nam_base + AC97_EXTENDED_ID),
            ));
        }
        Ok(())
    }

    /// Set the master volume (`0x0000` is full volume, `0x8080` mute):
    /// one write to the mixer's master-volume register.
    pub fn set_master_volume(&mut self, volume: u16) -> (r: Result<(), SoundError>)
        requires
            old(self).wf(),
        ensures
            final(self).wf(),
            r == Ok::<(), SoundError>(()),
            final(self)@.ports.device == old(self)@.ports.device,
            final(self)@.ports.log == old(self)@.ports.log.push(
                PortWrite {
                    port: (old(self)@.nam_base + AC97_MASTER_VOLUME) as u16,
                    width: PortWidth::Word,
                    value: volume as u32,
                },
            ),
            final(self)@.nam_base == old(self)@.nam_base,
            final(self)@.nabm_base == old(self)@.nabm_base,
            final(self)@.initialized == old(self)@.initialized,
            final(self)@.buffer_descriptors == old(self)@.buffer_descriptors,
    {
        self.ports.write16(self.nam_base + AC97_MASTER_VOLUME, volume);
        Ok(())
    }

    /// Set the PCM output volume: one write to the mixer's PCM-output
    /// register.
    pub fn set_pcm_volume(&mut self, volume: u16) -> (r: Result<(), SoundError>)
        requires
            old(self).wf(),
        ensures
            final(self).wf(),
            r == Ok::<(), SoundError>(()),
            final(self)@.ports.device == old(self)@.ports.device,
            final(self)@.ports.log == old(self)@.ports.log.push(
                PortWrite {
                    port: (old(self)@.nam_base + AC97_PCM_OUT_VOLUME) as u16,
                    width: PortWidth::Word,
                    value: volume as u32,
                },
            ),
            final(self)@.nam_base == old(self)@.nam_base,
            final(self)@.nabm_base == old(self)@.nabm_base,
            final(self)@.initialized == old(self)@.initialized,
            final(self)@.buffer_descriptors == old(self)@.buffer_descriptors,
    {
        self.ports.write16(self.nam_base + AC97_PCM_OUT_VOLUME, volume);
        Ok(())
    }

    /// Set the front DAC sample rate. Fails `InvalidSampleRate`, changing
    /// nothing, outside 8000–48000 Hz; otherwise one write of the rate to
    /// the mixer's DAC-rate register.
    pub fn set_sample_rate(&mut self, rate: u32) -> (r: Result<(), SoundError>)
        requires
            old(self).wf(),
        ensures
            final(self).wf(),
            rate < 8000 || rate > 48000 ==> r == Err::<(), SoundError>(
                SoundError::InvalidSampleRate,
            ) && final(self)@ == old(self)@,
            8000 <= rate <= 48000 ==> r == Ok::<(), SoundError>(()) && final(self)@.ports.log
                == old(self)@.ports.log.push(
                PortWrite {
                    port: (old(self)@.nam_base + AC97_PCM_FRONT_DAC_RATE) as u16,
                    width: PortWidth::Word,
                    value: (rate as u16) as u32,
                },
            ) && final(self)@.ports.device == old(self)@.ports.device && final(self)@.nam_base
                == old(self)@.nam_base && final(self)@.nabm_base == old(self)@.nabm_base && final(self)@.initialized == old(self)@.initialized && final(self)@.buffer_descriptors == old(self)@.buffer_descriptors,
    {
        if rate < 8000 || rate > 48000 {
            return Err(SoundError::InvalidSampleRate);
        }

        self.ports.write16(self.nam_base + AC97_PCM_FRONT_DAC_RATE, rate as u16);
        Ok(())
    }

    /// Start playback: one write of the run bit to the bus master's
    /// control register. Fails `NotInitialized`, changing nothing, before
    /// `init`. Staging the sample data itself is left to the descriptor
    /// list, still an extension point.
    pub fn play_audio(&mut self, data: &[u8]) -> (r: Result<(), SoundError>)
        requires
            old(self).wf(),
        ensures
            final(self).wf(),
            !old(self)@.initialized ==> r == Err::<(), SoundError>(SoundError::NotInitialized)
                && final(self)@ == old(self)@,
            old(self)@.initialized ==> r == Ok::<(), SoundError>(()) && final(self)@.ports.log
                == old(self)@.ports.log.push(
                PortWrite {
                    port: (old(self)@.nabm_base + NABM_CONTROL) as u16,
                    width: PortWidth::Byte,
                    value: 0x01,
                },
            ) && final(self)@.ports.device == old(self)@.ports.device && final(self)@.nam_base
                == old(self)@.nam_base && final(self)@.nabm_base == old(self)@.nabm_base && final(self)@.initialized == old(self)@.initialized && final(self)@.buffer_descriptors == old(self)@.buffer_descriptors,
    {
        if !self.initialized {
            return Err(SoundError::NotInitialized);
        }

        // Start playback
        self.ports.write8(self.nabm_base + NABM_CONTROL, 0x01);
        Ok(())
    }

    /// Stop playback: one write of zero to the bus master's control
    /// register.
    pub fn stop(&mut self) -> (r: Result<(), SoundError>)
        requires
            old(self).wf(),
        ensures
            final(self).wf(),
            r == Ok::<(), SoundError>(()),
            final(self)@.ports.log == old(self)@.ports.log.push(
                PortWrite {
                    port: (old(self)@.nabm_base + NABM_CONTROL) as u16,
                    width: PortWidth::Byte,
                    value: 0x00,
                },
            ),
            final(self)@.ports.device == old(self)@.ports.device,
            final(self)@.nam_base == old(self)@.nam_base,
            final(self)@.nabm_base == old(self)@.nabm_base,
            final(self)@.initialized == old(self)@.initialized,
            final(self)@.buffer_descriptors == old(self)@.buffer_descriptors,
    {
        self.ports.write8(self.nabm_base + NABM_CONTROL, 0x00);
        Ok(())
    }
}

} // verus!
