//! Realtek-family Ethernet driver.
//!
//! The same "fixed buffers + cursor + doorbell" protocol as the
//! descriptor-ring driver, instantiated differently by this hardware:
//! register access is port-mapped; there is no receive descriptor ring —
//! one contiguous receive region is shared with the device and software
//! keeps its own read cursor into it, advancing by the frame length plus
//! a 4-byte hardware header, modulo the region size; transmission cycles
//! four fixed buffer slots round-robin, announcing each frame by writing
//! the slot's address and length to a slot-indexed pair of ports.
//!
//! The driver owns its port window and buffers as plain data; the
//! device's half — presenting port values and filling the receive region
//! — enters through the `device_*` methods, played by a simulation double
//! in tests and by an interrupt-time shim on real hardware.

use vstd::arithmetic::div_mod::lemma_small_mod;
use vstd::prelude::*;

use crate::bytes::copy_prefix;
use crate::regs::{PortModel, PortRegisters, PortWidth, PortWrite, port_word};
use crate::ring::advance_cursor;

verus! {

/// Size of the shared receive region.
pub const RX_BUFFER_SIZE: usize = 8192 + 16 + 1500;

/// Size of each of the four transmit buffers.
pub const TX_BUFFER_SIZE: usize = 1792;

/// Number of fixed transmit slots cycled round-robin.
pub const TX_SLOT_COUNT: usize = 4;

/// Port offsets from the device's base port: the four slot-indexed
/// transmit status and start-address ports, the receive-length report,
/// the receive region start address, the command register, the interrupt
/// mask and the interrupt status registers.
pub const PORT_TX_STATUS: u16 = 0x10;

pub const PORT_TX_ADDR: u16 = 0x20;

pub const PORT_RX_LENGTH: u16 = 0x1E;

pub const PORT_RBSTART: u16 = 0x30;

pub const PORT_COMMAND: u16 = 0x37;

pub const PORT_IMR: u16 = 0x3C;

pub const PORT_ISR: u16 = 0x3E;

/// Model DMA addresses programmed into the device: where the receive
/// region and the four transmit buffers stand in the model's DMA window,
/// in place of the allocator's physical placement.
pub const RX_DMA_BASE: u32 = 0x0040_0000;

pub const TX_DMA_BASE: u32 = 0x0050_0000;

/// Mathematical content of a driver: port window, the shared receive
/// region, the four transmit buffers, both cursors, and the state flag.
#[verifier::ext_equal]
pub ghost struct Rtl8139Model {
    pub ports: PortModel,
    pub io_base: u16,
    pub irq: u8,
    pub rx_buffer: Seq<u8>,
    pub tx_buffers: Seq<Seq<u8>>,
    pub cur_tx: int,
    pub cur_rx: int,
    pub initialized: bool,
}

impl Rtl8139Model {
    /// Well-formedness: the port window covers the port space, the base
    /// port leaves room for the register bank, buffers have their fixed
    /// sizes and both cursors stay inside their ranges.
    pub open spec fn wf(self) -> bool {
        &&& self.ports.device.len() == 0x10000
        &&& self.io_base <= 0xFFC0
        &&& self.rx_buffer.len() == RX_BUFFER_SIZE
        &&& self.tx_buffers.len() == TX_SLOT_COUNT
        &&& forall|i: int|
            0 <= i < TX_SLOT_COUNT ==> (#[trigger] self.tx_buffers[i]).len() == TX_BUFFER_SIZE
        &&& 0 <= self.cur_tx < TX_SLOT_COUNT
        &&& 0 <= self.cur_rx < RX_BUFFER_SIZE
    }
}

/// The exact port writes `init` issues, in program order: software
/// reset, the receive region's start address, receiver and transmitter
/// enable, then the interrupt mask (receive OK and transmit OK).
pub open spec fn init_log(io_base: u16) -> Seq<PortWrite> {
    seq![
        PortWrite { port: (io_base + PORT_COMMAND) as u16, width: PortWidth::Byte, value: 0x10 },
        PortWrite { port: (io_base + PORT_RBSTART) as u16, width: PortWidth::Dword, value: RX_DMA_BASE },
        PortWrite { port: (io_base + PORT_COMMAND) as u16, width: PortWidth::Byte, value: 0x0C },
        PortWrite { port: (io_base + PORT_IMR) as u16, width: PortWidth::Word, value: 0x0005 },
    ]
}

/// State after `init`: the port traffic above has been issued and the
/// driver is marked initialized; nothing else moves.
pub open spec fn spec_init(m: Rtl8139Model) -> Rtl8139Model {
    Rtl8139Model {
        ports: PortModel { device: m.ports.device, log: m.ports.log + init_log(m.io_base) },
        io_base: m.io_base,
        irq: m.irq,
        rx_buffer: m.rx_buffer,
        tx_buffers: m.tx_buffers,
        cur_tx: m.cur_tx,
        cur_rx: m.cur_rx,
        initialized: true,
    }
}

/// State after a successful `send_packet(data)`: the payload sits at the
/// front of the current slot's buffer, the slot's start-address and
/// length ports have been written (the doorbell), and the transmit
/// cursor has advanced one slot round the four.
pub open spec fn spec_send(m: Rtl8139Model, data: Seq<u8>) -> Rtl8139Model
    recommends
        m.wf(),
        data.len() <= TX_BUFFER_SIZE,
{
    let i = m.cur_tx;
    Rtl8139Model {
        ports: PortModel {
            device: m.ports.device,
            log: m.ports.log.push(
                PortWrite {
                    port: (m.io_base + PORT_TX_ADDR + i * 4) as u16,
                    width: PortWidth::Dword,
                    value: (TX_DMA_BASE + i * TX_BUFFER_SIZE) as u32,
                },
            ).push(
                PortWrite {
                    port: (m.io_base + PORT_TX_STATUS + i * 4) as u16,
                    width: PortWidth::Dword,
                    value: data.len() as u32,
                },
            ),
        },
        io_base: m.io_base,
        irq: m.irq,
        rx_buffer: m.rx_buffer,
        tx_buffers: m.tx_buffers.update(i, data + m.tx_buffers[i].skip(data.len() as int)),
        cur_tx: (i + 1) % (TX_SLOT_COUNT as int),
        cur_rx: m.cur_rx,
        initialized: m.initialized,
    }
}

/// The `n` bytes read circularly out of the receive region from `start`.
pub open spec fn ring_bytes(rx: Seq<u8>, start: int, n: nat) -> Seq<u8> {
    Seq::new(n, |i: int| rx[(start + i) % (RX_BUFFER_SIZE as int)])
}

/// State after a successful `receive_packet` of a frame of length `n`:
/// the read cursor skips the frame and its 4-byte hardware header,
/// modulo the region size; no port write is issued.
pub open spec fn spec_recv_ok(m: Rtl8139Model, n: int) -> Rtl8139Model
    recommends
        m.wf(),
        0 <= n,
{
    Rtl8139Model {
        ports: m.ports,
        io_base: m.io_base,
        irq: m.irq,
        rx_buffer: m.rx_buffer,
        tx_buffers: m.tx_buffers,
        cur_tx: m.cur_tx,
        cur_rx: (m.cur_rx + n + 4) % (RX_BUFFER_SIZE as int),
        initialized: m.initialized,
    }
}

/// State after `handle_interrupt` on an initialized driver: the
/// interrupt status register's current value has been written back to
/// acknowledge it, and nothing else moved.
pub open spec fn spec_ack_interrupt(m: Rtl8139Model) -> Rtl8139Model
    recommends
        m.wf(),
{
    Rtl8139Model {
        ports: PortModel {
            device: m.ports.device,
            log: m.ports.log.push(
                PortWrite {
                    port: (m.io_base + PORT_ISR) as u16,
                    width: PortWidth::Word,
                    value: port_word(m.ports.device, m.io_base + PORT_ISR) as u32,
                },
            ),
        },
        io_base: m.io_base,
        irq: m.irq,
        rx_buffer: m.rx_buffer,
        tx_buffers: m.tx_buffers,
        cur_tx: m.cur_tx,
        cur_rx: m.cur_rx,
        initialized: m.initialized,
    }
}

/// Network driver errors.
#[derive(Clone, Copy, Debug, PartialEq, Eq, Structural)]
pub enum NetError {
    NotInitialized,
    BufferTooSmall,
}

impl NetError {
    /// A short description of the error.
    pub fn as_str(&self) -> (r: &'static str)
        ensures
            self is NotInitialized ==> r@ == "Driver not initialized"@,
            self is BufferTooSmall ==> r@ == "Buffer too small"@,
    {
        match self {
            NetError::NotInitialized => "Driver not initialized",
            NetError::BufferTooSmall => "Buffer too small",
        }
    }
}

/// Realtek-family Ethernet driver over a port-mapped register window.
pub struct RTL8139Driver {
    io_base: u16,
    irq: u8,
    ports: PortRegisters,
    rx_buffer: Vec<u8>,
    tx_buffers: Vec<Vec<u8>>,
    cur_tx: usize,
    cur_rx: usize,
    initialized: bool,
}

impl View for RTL8139Driver {
    type V = Rtl8139Model;

    closed spec fn view(&self) -> Rtl8139Model {
        Rtl8139Model {
            ports: self.ports@,
            io_base: self.io_base,
            irq: self.irq,
            rx_buffer: self.rx_buffer@,
            tx_buffers: self.tx_buffers@.map_values(|b: Vec<u8>| b@),
            cur_tx: self.cur_tx as int,
            cur_rx: self.cur_rx as int,
            initialized: self.initialized,
        }
    }
}

/// A zeroed buffer of `n` bytes.
fn zero_bytes(n: usize) -> (r: Vec<u8>)
    ensures
        r@.len() == n,
        forall|j: int| 0 <= j < n ==> r@[j] == 0u8,
{
    let mut b: Vec<u8> = Vec::new();
    let mut i: usize = 0;
    while i < n
        invariant
            i <= n,
            b@.len() == i,
            forall|j: int| 0 <= j < i ==> b@[j] == 0u8,
        decreases n - i,
    {
        b.push(0);
        i = i + 1;
    }
    b
}

impl RTL8139Driver {
    /// Well-formedness of the driver's model.
    pub open spec fn wf(&self) -> bool {
        self@.wf()
    }

    /// Create a new driver instance over the port bank at `io_base`,
    /// wired to interrupt line `irq`. Buffers are pre-allocated and
    /// zeroed; the driver starts uninitialized and issues no port write.
    /// The base port must leave room for the register bank below the top
    /// of the 16-bit port space.
    pub fn new(io_base: u16, irq: u8) -> (r: RTL8139Driver)
        requires
            io_base <= 0xFFC0,
        ensures
            r.wf(),
            r@.io_base == io_base,
            r@.irq == irq,
            r@.ports.log.len() == 0,
            r@.cur_tx == 0,
            r@.cur_rx == 0,
            !r@.initialized,
            forall|j: int| 0 <= j < RX_BUFFER_SIZE ==> r@.rx_buffer[j] == 0u8,
            forall|i: int, j: int|
                0 <= i < TX_SLOT_COUNT && 0 <= j < TX_BUFFER_SIZE ==> r@.tx_buffers[i][j] == 0u8,
    {
        let mut tx_buffers: Vec<Vec<u8>> = Vec::new();
        let mut i: usize = 0;
        while i < TX_SLOT_COUNT
            invariant
                i <= TX_SLOT_COUNT,
                tx_buffers@.len() == i,
                forall|k: int|
                    0 <= k < i ==> (#[trigger] tx_buffers@[k])@.len() == TX_BUFFER_SIZE,
                forall|k: int, j: int|
                    0 <= k < i && 0 <= j < TX_BUFFER_SIZE ==> tx_buffers@[k]@[j] == 0u8,
            decreases TX_SLOT_COUNT - i,
        {
            tx_buffers.push(zero_bytes(TX_BUFFER_SIZE));
            i = i + 1;
        }
        RTL8139Driver {
            io_base,
            irq,
            ports: PortRegisters::new(),
            rx_buffer: zero_bytes(RX_BUFFER_SIZE),
            tx_buffers,
            cur_tx: 0,
            cur_rx: 0,
            initialized: false,
        }
    }

    /// The base port of the device's register bank.
    pub fn io_base(&self) -> (r: u16)
        ensures
            r == self@.io_base,
    {
        self.io_base
    }

    /// The interrupt line the device is wired to.
    pub fn irq(&self) -> (r: u8)
        ensures
            r == self@.irq,
    {
        self.irq
    }

    /// Whether `init` has completed.
    pub fn is_initialized(&self) -> (r: bool)
        ensures
            r == self@.initialized,
    {
        self.initialized
    }

    /// The transmit cursor: the slot the next `send_packet` will fill.
    pub fn tx_cursor(&self) -> (r: usize)
        ensures
            r == self@.cur_tx,
    {
        self.cur_tx
    }

    /// The receive cursor: where in the shared region the next frame is
    /// read from.
    pub fn rx_cursor(&self) -> (r: usize)
        ensures
            r == self@.cur_rx,
    {
        self.cur_rx
    }

    /// The driver's port window, for inspecting the write log.
    pub fn ports(&self) -> (r: &PortRegisters)
        ensures
            r@ == self@.ports,
    {
        &self.ports
    }

    /// Device side: present one byte at `port`, as the hardware or a
    /// simulation double would.
    pub fn device_set_port8(&mut self, port: u16, value: u8)
        requires
            old(self).wf(),
        ensures
            final(self).wf(),
            final(self)@ == (Rtl8139Model {
                ports: PortModel {
                    device: old(self)@.ports.device.update(port as int, value),
                    log: old(self)@.ports.log,
                },
                io_base: old(self)@.io_base,
                irq: old(self)@.irq,
                rx_buffer: old(self)@.rx_buffer,
                tx_buffers: old(self)@.tx_buffers,
                cur_tx: old(self)@.cur_tx,
                cur_rx: old(self)@.cur_rx,
                initialized: old(self)@.initialized,
            }),
    {
        self.ports.device_set8(port, value);
        proof {
            assert(self@ =~~= (Rtl8139Model {
                ports: PortModel {
                    device: old(self)@.ports.device.update(port as int, value),
                    log: old(self)@.ports.log,
                },
                io_base: old(self)@.io_base,
                irq: old(self)@.irq,
                rx_buffer: old(self)@.rx_buffer,
                tx_buffers: old(self)@.tx_buffers,
                cur_tx: old(self)@.cur_tx,
                cur_rx: old(self)@.cur_rx,
                initialized: old(self)@.initialized,
            }));
        }
    }

    /// Device side: present a 16-bit value at `port`, low byte first.
    pub fn device_set_port16(&mut self, port: u16, value: u16)
        requires
            old(self).wf(),
        ensures
            final(self).wf(),
            final(self)@.ports.device == old(self)@.ports.device
                .update(port as int, (value % 0x100) as u8)
                .update((port as int + 1) % 0x10000, (value / 0x100) as u8),
            final(self)@.ports.log == old(self)@.ports.log,
            final(self)@.io_base == old(self)@.io_base,
            final(self)@.irq == old(self)@.irq,
            final(self)@.rx_buffer == old(self)@.rx_buffer,
            final(self)@.tx_buffers == old(self)@.tx_buffers,
            final(self)@.cur_tx == old(self)@.cur_tx,
            final(self)@.cur_rx == old(self)@.cur_rx,
            final(self)@.initialized == old(self)@.initialized,
    {
        self.ports.device_set16(port, value);
    }

    /// Device side: place `data` in the shared receive region at
    /// `offset`, as the device's DMA engine would when a frame arrives.
    pub fn device_write_rx(&mut self, offset: usize, data: &[u8])
        requires
            old(self).wf(),
            offset + data@.len() <= RX_BUFFER_SIZE,
        ensures
            final(self).wf(),
            final(self)@.rx_buffer == old(self)@.rx_buffer.take(offset as int) + data@ + old(
                self,
            )@.rx_buffer.skip(offset as int + data@.len()),
            final(self)@.ports == old(self)@.ports,
            final(self)@.io_base == old(self)@.io_base,
            final(self)@.irq == old(self)@.irq,
            final(self)@.tx_buffers == old(self)@.tx_buffers,
            final(self)@.cur_tx == old(self)@.cur_tx,
            final(self)@.cur_rx == old(self)@.cur_rx,
            final(self)@.initialized == old(self)@.initialized,
    {
        let n = data.len();
        let mut k: usize = 0;
        while k < n
            invariant
                k <= n,
                n == data@.len(),
                offset + n <= RX_BUFFER_SIZE,
                self.rx_buffer@.len() == RX_BUFFER_SIZE,
                forall|j: int| 0 <= j < offset ==> self.rx_buffer@[j] == old(self)@.rx_buffer[j],
                forall|j: int| 0 <= j < k ==> self.rx_buffer@[offset + j] == data@[j],
                forall|j: int|
                    offset + k <= j < RX_BUFFER_SIZE ==> self.rx_buffer@[j] == old(
                        self,
                    )@.rx_buffer[j],
                self.ports@ == old(self)@.ports,
                self.io_base == old(self)@.io_base,
                self.irq == old(self)@.irq,
                self.tx_buffers@.map_values(|b: Vec<u8>| b@) == old(self)@.tx_buffers,
                self.cur_tx == old(self)@.cur_tx,
                self.cur_rx == old(self)@.cur_rx,
                self.initialized == old(self)@.initialized,
            decreases n - k,
        {
            let b = data[k];
            self.rx_buffer.set(offset + k, b);
            k = k + 1;
        }
        proof {
            assert(self.rx_buffer@ =~= old(self)@.rx_buffer.take(offset as int) + data@ + old(
                self,
            )@.rx_buffer.skip(offset as int + data@.len()));
        }
    }

    /// Initialize the network card: issue a software reset, poll the
    /// command register until the reset bit reads clear (bounded at 1000
    /// polls, after which initialization proceeds regardless), program
    /// the receive region's address, enable receiver and transmitter,
    /// and unmask the receive-OK and transmit-OK interrupts.
    pub fn init(&mut self) -> (r: Result<(), NetError>)
        requires
            old(self).wf(),
        ensures
            final(self).wf(),
            r == Ok::<(), NetError>(()),
            final(self)@ == spec_init(old(self)@),
    {
        let cmd_port = self.io_base + PORT_COMMAND;
        // Issue software reset
        self.ports.write8(cmd_port, 0x10);
        // Wait for reset completion
        let mut attempts: usize = 0;
        while attempts < 1000
            invariant
                old(self).wf(),
                self.io_base == old(self)@.io_base,
                cmd_port == self.io_base + PORT_COMMAND,
                self.ports.wf(),
                self.ports@.device == old(self)@.ports.device,
                self.ports@.log == old(self)@.ports.log + init_log(old(self)@.io_base).take(1),
            decreases 1000 - attempts,
        {
            if self.ports.read8(cmd_port) & 0x10 == 0 {
                break;
            }
            attempts = attempts + 1;
        }

        // Set up receive buffer
        let rbstart = self.io_base + PORT_RBSTART;
        self.ports.write32(rbstart, RX_DMA_BASE);

        // Enable receiver and transmitter
        self.ports.write8(cmd_port, 0x0C);

        // Enable interrupts (receive OK and transmit OK)
        let imr = self.io_base + PORT_IMR;
        self.ports.write16(imr, 0x0005);

        self.initialized = true;
        proof {
            assert(self.ports@.log =~= old(self)@.ports.log + init_log(old(self)@.io_base));
            assert(self@ =~~= spec_init(old(self)@));
        }
        Ok(())
    }

    /// Send an Ethernet frame.
    ///
    /// Fails `NotInitialized` before `init` and `BufferTooSmall` when the
    /// payload exceeds a transmit slot, in both cases changing nothing.
    /// Otherwise copies the payload into the current slot's buffer and
    /// writes the slot's start-address and length ports — the doorbell —
    /// then advances the transmit cursor round the four slots.
    pub fn send_packet(&mut self, data: &[u8]) -> (r: Result<(), NetError>)
        requires
            old(self).wf(),
        ensures
            final(self).wf(),
            !old(self)@.initialized ==> r == Err::<(), NetError>(NetError::NotInitialized)
                && final(self)@ == old(self)@,
            old(self)@.initialized && data@.len() > TX_BUFFER_SIZE ==> r == Err::<(), NetError>(
                NetError::BufferTooSmall,
            ) && final(self)@ == old(self)@,
            old(self)@.initialized && data@.len() <= TX_BUFFER_SIZE ==> r == Ok::<(), NetError>(())
                && final(self)@ == spec_send(old(self)@, data@),
    {
        if !self.initialized {
            return Err(NetError::NotInitialized);
        }
        if data.len() > TX_BUFFER_SIZE {
            return Err(NetError::BufferTooSmall);
        }

        proof {
            lemma_small_mod(old(self)@.cur_tx as nat, TX_SLOT_COUNT as nat);
        }
        let tx_index = self.cur_tx % TX_SLOT_COUNT;
        let n = data.len();
        proof {
            assert(self.tx_buffers@[tx_index as int]@ == self@.tx_buffers[tx_index as int]);
            assert(self@.tx_buffers[tx_index as int].len() == TX_BUFFER_SIZE);
        }
        copy_prefix(&mut self.tx_buffers[tx_index], data, n);

        proof {
            assert(tx_index < TX_SLOT_COUNT);
            let ti = tx_index as u32;
            assert(ti * 1792 <= 5376) by (nonlinear_arith)
                requires
                    ti <= 3,
            ;
            assert(TX_BUFFER_SIZE as u32 == 1792);
        }
        let tx_addr_port = self.io_base + PORT_TX_ADDR + (tx_index as u16) * 4;
        self.ports.write32(tx_addr_port, TX_DMA_BASE + (tx_index as u32) * (TX_BUFFER_SIZE as u32));
        let tx_status_port = self.io_base + PORT_TX_STATUS + (tx_index as u16) * 4;
        let masked = (n as u32) & 0x1FFF;
        proof {
            let len32 = n as u32;
            assert(len32 & 0x1FFF == len32) by (bit_vector)
                requires
                    len32 <= 1792,
            ;
        }
        self.ports.write32(tx_status_port, masked);

        self.cur_tx = advance_cursor(self.cur_tx, TX_SLOT_COUNT);
        proof {
            assert(data@.take(n as int) == data@);
            assert(self@.tx_buffers =~~= spec_send(old(self)@, data@).tx_buffers);
            assert(self@ =~~= spec_send(old(self)@, data@));
        }
        Ok(())
    }

    /// Receive an Ethernet frame into the front of `buffer`.
    ///
    /// Fails `NotInitialized` before `init`. Reads the frame length the
    /// device reports on the length port; if it exceeds `buffer`, fails
    /// `BufferTooSmall` with the read cursor — and everything else —
    /// unchanged, so a retry with a larger buffer is possible. Otherwise
    /// copies that many bytes out of the shared region, starting at the
    /// read cursor and wrapping at the region's end, and advances the
    /// cursor past the frame and its 4-byte header, modulo the region
    /// size. The 4-byte header convention is assumed, never validated
    /// against a status word. No port write is issued.
    pub fn receive_packet(&mut self, buffer: &mut Vec<u8>) -> (r: Result<usize, NetError>)
        requires
            old(self).wf(),
        ensures
            final(self).wf(),
            !old(self)@.initialized ==> r == Err::<usize, NetError>(NetError::NotInitialized)
                && final(self)@ == old(self)@ && final(buffer)@ == old(buffer)@,
            old(self)@.initialized && port_word(
                old(self)@.ports.device,
                old(self)@.io_base + PORT_RX_LENGTH,
            ) > old(buffer)@.len() ==> r == Err::<usize, NetError>(NetError::BufferTooSmall)
                && final(self)@ == old(self)@ && final(buffer)@ == old(buffer)@,
            old(self)@.initialized && port_word(
                old(self)@.ports.device,
                old(self)@.io_base + PORT_RX_LENGTH,
            ) <= old(buffer)@.len() ==> {
                let n = port_word(
                    old(self)@.ports.device,
                    old(self)@.io_base + PORT_RX_LENGTH,
                ) as int;
                &&& r == Ok::<usize, NetError>(n as usize)
                &&& final(buffer)@ == ring_bytes(old(self)@.rx_buffer, old(self)@.cur_rx, n as nat)
                    + old(buffer)@.skip(n)
                &&& final(self)@ == spec_recv_ok(old(self)@, n)
            },
    {
        if !self.initialized {
            return Err(NetError::NotInitialized);
        }

        let length_port = self.io_base + PORT_RX_LENGTH;
        let length = self.ports.read16(length_port);
        if length as usize > buffer.len() {
            return Err(NetError::BufferTooSmall);
        }

        let n = length as usize;
        let mut k: usize = 0;
        while k < n
            invariant
                old(self).wf(),
                self@ == old(self)@,
                self.cur_rx < RX_BUFFER_SIZE,
                k <= n,
                n <= 0xFFFF,
                n <= buffer@.len(),
                buffer@.len() == old(buffer)@.len(),
                forall|j: int|
                    0 <= j < k ==> buffer@[j] == old(self)@.rx_buffer[(old(self)@.cur_rx + j) % (
                    RX_BUFFER_SIZE as int)],
                forall|j: int| k <= j < buffer@.len() ==> buffer@[j] == old(buffer)@[j],
            decreases n - k,
        {
            let idx = (self.cur_rx + k) % RX_BUFFER_SIZE;
            let b = self.rx_buffer[idx];
            buffer.set(k, b);
            k = k + 1;
        }
        self.cur_rx = (self.cur_rx + n + 4) % RX_BUFFER_SIZE;
        proof {
            assert(final(buffer)@ =~= ring_bytes(old(self)@.rx_buffer, old(self)@.cur_rx, n as nat)
                + old(buffer)@.skip(n as int));
            assert(self@ =~~= spec_recv_ok(old(self)@, n as int));
        }
        Ok(n)
    }

    /// Handle an interrupt from the network card: read the interrupt
    /// status register and write the same value back to acknowledge the
    /// handled interrupts. A no-op before `init`.
    pub fn handle_interrupt(&mut self)
        requires
            old(self).wf(),
        ensures
            final(self).wf(),
            !old(self)@.initialized ==> final(self)@ == old(self)@,
            old(self)@.initialized ==> final(self)@ == spec_ack_interrupt(old(self)@),
    {
        if !self.initialized {
            return ;
        }

        let isr = self.io_base + PORT_ISR;
        let status = self.ports.read16(isr);
        // Acknowledge handled interrupts
        self.ports.write16(isr, status);
        proof {
            assert(self@ =~~= spec_ack_interrupt(old(self)@));
        }
    }
}

} // verus!
