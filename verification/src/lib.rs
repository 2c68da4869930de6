//! Device-driver layer of the Orbita kernel.
//!
//! The heart of the crate is a pair of Ethernet drivers built around DMA
//! rings — a descriptor-ring device and a single-buffer-cursor device —
//! together with the PCI enumerator that locates such devices on the bus.
//! Hardware-shared state (device registers and DMA memory) is held as plain
//! data: each driver owns a register window whose read plane is written by
//! the device side and whose write stream is recorded in program order, so
//! every register access and every step of the ownership-bit protocol is
//! visible to the verifier. The unverifiable edge — the volatile loads,
//! stores and port instructions that bind such a window to real silicon —
//! lives outside this library.

mod bytes;

pub mod pci;

pub mod drivers;

pub mod fs;

pub mod graphics;

pub mod graphics_accel;

pub mod mouse;

pub mod net;

pub mod regs;

pub mod ring;

pub mod sound;

pub mod storage;

pub mod usb;

pub mod window_manager;
