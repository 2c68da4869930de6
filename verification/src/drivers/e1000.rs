//! Intel-family gigabit Ethernet driver.
//!
//! Two independent descriptor rings, one per direction, each a fixed set of
//! 16-byte descriptors paired one-to-one with pre-allocated DMA buffers.
//! Bit 0 of a descriptor's status byte is the ownership signal: software
//! may touch a transmit slot while the bit is set, and may consume a
//! receive slot once the device has set it. A cursor per ring names the
//! next slot software will touch; it advances by exactly one, modulo the
//! ring capacity, per operation, and each advance is announced to the
//! device through the ring's tail register.
//!
//! The driver owns its register window and descriptor memory as plain
//! data. The device's half of the protocol — presenting register values
//! and completing receive slots — enters through `device_set_register` and
//! `device_complete_rx`, played by a simulation double in tests and by the
//! interrupt-time shim on real hardware. Descriptor and buffer placement
//! uses a fixed model DMA window, standing in for the allocator's choice
//! of physical addresses; each slot's address is distinct and never
//! changes after `init`.

use vstd::arithmetic::div_mod::{lemma_add_mod_noop, lemma_small_mod};
use vstd::prelude::*;

use crate::bytes::copy_prefix;
use crate::regs::{MmioModel, MmioRegisters, MmioWrite};
use crate::ring::advance_cursor;

verus! {

/// Number of descriptors in the transmit ring.
pub const TX_RING_SIZE: usize = 16;

/// Number of descriptors in the receive ring.
pub const RX_RING_SIZE: usize = 16;

/// Size of the DMA buffer paired with each descriptor.
pub const BUFFER_SIZE: usize = 2048;

/// 32-bit registers in the device's register window.
pub const REG_WORDS: usize = 0x1000;

/// Device control register.
pub const REG_CTRL: u32 = 0x0000;

/// Interrupt cause register (write-1-to-clear).
pub const REG_ICR: u32 = 0x000C;

/// Receive control register.
pub const REG_RCTL: u32 = 0x0100;

/// Transmit control register.
pub const REG_TCTL: u32 = 0x0400;

/// Receive ring base address, low and high halves, byte length, head, tail.
pub const REG_RDBAL: u32 = 0x02800;

pub const REG_RDBAH: u32 = 0x02804;

pub const REG_RDLEN: u32 = 0x02808;

pub const REG_RDH: u32 = 0x02810;

pub const REG_RDT: u32 = 0x02818;

/// Transmit ring base address, low and high halves, byte length, head, tail.
pub const REG_TDBAL: u32 = 0x03800;

pub const REG_TDBAH: u32 = 0x03804;

pub const REG_TDLEN: u32 = 0x03808;

pub const REG_TDH: u32 = 0x03810;

pub const REG_TDT: u32 = 0x03818;

/// Model DMA window: the addresses programmed into descriptors and ring
/// registers. They stand in for the allocator's placement of the rings and
/// buffers; what matters to the protocol is that every slot's address is
/// distinct and fixed for the life of the driver.
pub const TX_DESC_BASE: u64 = 0x0010_0000;

pub const RX_DESC_BASE: u64 = 0x0010_1000;

pub const TX_BUF_BASE: u64 = 0x0020_0000;

pub const RX_BUF_BASE: u64 = 0x0030_0000;

/// Transmit descriptor: the fixed 16-byte layout shared with the device.
#[derive(Clone, Copy, Debug, PartialEq, Eq, Structural)]
pub struct TxDesc {
    pub addr: u64,
    pub length: u16,
    pub cso: u8,
    pub cmd: u8,
    pub status: u8,
    pub css: u8,
    pub special: u16,
}

/// Receive descriptor: the fixed 16-byte layout shared with the device.
#[derive(Clone, Copy, Debug, PartialEq, Eq, Structural)]
pub struct RxDesc {
    pub addr: u64,
    pub length: u16,
    pub csum: u16,
    pub status: u8,
    pub errors: u8,
    pub special: u16,
}

/// Mathematical content of a driver: register window, both rings with
/// their paired buffers, the two cursors, and the one-way state flag.
#[verifier::ext_equal]
pub ghost struct E1000Model {
    pub regs: MmioModel,
    pub tx_descs: Seq<TxDesc>,
    pub rx_descs: Seq<RxDesc>,
    pub tx_buffers: Seq<Seq<u8>>,
    pub rx_buffers: Seq<Seq<u8>>,
    pub tx_cur: int,
    pub rx_cur: int,
    pub initialized: bool,
}

impl E1000Model {
    /// Well-formedness: rings and buffers have their fixed sizes, cursors
    /// stay inside the rings, and no completed receive descriptor records
    /// more than its paired buffer holds.
    pub open spec fn wf(self) -> bool {
        &&& self.regs.device.len() == REG_WORDS
        &&& self.tx_descs.len() == TX_RING_SIZE
        &&& self.rx_descs.len() == RX_RING_SIZE
        &&& self.tx_buffers.len() == TX_RING_SIZE
        &&& self.rx_buffers.len() == RX_RING_SIZE
        &&& forall|i: int|
            0 <= i < TX_RING_SIZE ==> (#[trigger] self.tx_buffers[i]).len() == BUFFER_SIZE
        &&& forall|i: int|
            0 <= i < RX_RING_SIZE ==> (#[trigger] self.rx_buffers[i]).len() == BUFFER_SIZE
        &&& forall|i: int|
            0 <= i < RX_RING_SIZE ==> (#[trigger] self.rx_descs[i]).length <= BUFFER_SIZE
        &&& 0 <= self.tx_cur < TX_RING_SIZE
        &&& 0 <= self.rx_cur < RX_RING_SIZE
    }
}

/// Model address of the transmit buffer paired with slot `i`.
pub open spec fn tx_slot_addr(i: int) -> u64 {
    (TX_BUF_BASE + i * BUFFER_SIZE) as u64
}

/// Model address of the receive buffer paired with slot `i`.
pub open spec fn rx_slot_addr(i: int) -> u64 {
    (RX_BUF_BASE + i * BUFFER_SIZE) as u64
}

/// A buffer of `BUFFER_SIZE` zero bytes.
pub open spec fn zero_buffer_bytes() -> Seq<u8> {
    Seq::new(BUFFER_SIZE as nat, |j: int| 0u8)
}

/// The exact register writes `init` issues, in program order: reset, the
/// transmit ring's base/length/head/tail, the receive ring's
/// base/length/head/tail, then transmit and receive enable.
pub open spec fn init_log() -> Seq<MmioWrite> {
    seq![
        MmioWrite { offset: REG_CTRL, value: 0x04000000 },
        MmioWrite { offset: REG_CTRL, value: 0x00000000 },
        MmioWrite { offset: REG_TDBAL, value: TX_DESC_BASE as u32 },
        MmioWrite { offset: REG_TDBAH, value: (TX_DESC_BASE >> 32u64) as u32 },
        MmioWrite { offset: REG_TDLEN, value: 256 },
        MmioWrite { offset: REG_TDH, value: 0 },
        MmioWrite { offset: REG_TDT, value: 0 },
        MmioWrite { offset: REG_RDBAL, value: RX_DESC_BASE as u32 },
        MmioWrite { offset: REG_RDBAH, value: (RX_DESC_BASE >> 32u64) as u32 },
        MmioWrite { offset: REG_RDLEN, value: 256 },
        MmioWrite { offset: REG_RDH, value: 0 },
        MmioWrite { offset: REG_RDT, value: (RX_RING_SIZE - 1) as u32 },
        MmioWrite { offset: REG_TCTL, value: 0x0000000C },
        MmioWrite { offset: REG_RCTL, value: 0x00000002 },
    ]
}

/// State after `init`: every descriptor is bound to its paired buffer's
/// address, transmit slots start software-owned (status bit 0 set), the
/// ring registers have been programmed and the device enabled.
pub open spec fn spec_init(m: E1000Model) -> E1000Model {
    E1000Model {
        regs: MmioModel {
            base: m.regs.base,
            device: m.regs.device,
            log: m.regs.log + init_log(),
        },
        tx_descs: Seq::new(
            TX_RING_SIZE as nat,
            |i: int|
                TxDesc {
                    addr: tx_slot_addr(i),
                    length: m.tx_descs[i].length,
                    cso: m.tx_descs[i].cso,
                    cmd: m.tx_descs[i].cmd,
                    status: 0x1,
                    css: m.tx_descs[i].css,
                    special: m.tx_descs[i].special,
                },
        ),
        rx_descs: Seq::new(
            RX_RING_SIZE as nat,
            |i: int|
                RxDesc {
                    addr: rx_slot_addr(i),
                    length: m.rx_descs[i].length,
                    csum: m.rx_descs[i].csum,
                    status: m.rx_descs[i].status,
                    errors: m.rx_descs[i].errors,
                    special: m.rx_descs[i].special,
                },
        ),
        tx_buffers: m.tx_buffers,
        rx_buffers: m.rx_buffers,
        tx_cur: m.tx_cur,
        rx_cur: m.rx_cur,
        initialized: true,
    }
}

/// State after a successful `send_packet(data)`: the payload sits at the
/// front of the cursor slot's buffer, the slot's descriptor records the
/// length, end-of-packet command flags and hardware ownership, the cursor
/// has advanced one slot, and the new cursor value has been written to the
/// transmit tail register as the doorbell.
pub open spec fn spec_send(m: E1000Model, data: Seq<u8>) -> E1000Model
    recommends
        m.wf(),
        data.len() <= BUFFER_SIZE,
{
    let i = m.tx_cur;
    let ncur = (i + 1) % (TX_RING_SIZE as int);
    E1000Model {
        regs: MmioModel {
            base: m.regs.base,
            device: m.regs.device,
            log: m.regs.log.push(MmioWrite { offset: REG_TDT, value: ncur as u32 }),
        },
        tx_descs: m.tx_descs.update(
            i,
            TxDesc {
                addr: m.tx_descs[i].addr,
                length: data.len() as u16,
                cso: m.tx_descs[i].cso,
                cmd: 0x0B,
                status: 0,
                css: m.tx_descs[i].css,
                special: m.tx_descs[i].special,
            },
        ),
        rx_descs: m.rx_descs,
        tx_buffers: m.tx_buffers.update(i, data + m.tx_buffers[i].skip(data.len() as int)),
        rx_buffers: m.rx_buffers,
        tx_cur: ncur,
        rx_cur: m.rx_cur,
        initialized: m.initialized,
    }
}

/// State after a successful `receive_packet`: the cursor slot's status bit
/// is cleared (ownership returned to the device), the cursor has advanced
/// one slot, and the slot just freed has been written to the receive tail
/// register.
pub open spec fn spec_recv_ok(m: E1000Model) -> E1000Model
    recommends
        m.wf(),
{
    let i = m.rx_cur;
    let ncur = (i + 1) % (RX_RING_SIZE as int);
    let tail = (ncur + RX_RING_SIZE - 1) % (RX_RING_SIZE as int);
    E1000Model {
        regs: MmioModel {
            base: m.regs.base,
            device: m.regs.device,
            log: m.regs.log.push(MmioWrite { offset: REG_RDT, value: tail as u32 }),
        },
        tx_descs: m.tx_descs,
        rx_descs: m.rx_descs.update(
            i,
            RxDesc {
                addr: m.rx_descs[i].addr,
                length: m.rx_descs[i].length,
                csum: m.rx_descs[i].csum,
                status: 0,
                errors: m.rx_descs[i].errors,
                special: m.rx_descs[i].special,
            },
        ),
        tx_buffers: m.tx_buffers,
        rx_buffers: m.rx_buffers,
        tx_cur: m.tx_cur,
        rx_cur: ncur,
        initialized: m.initialized,
    }
}

/// State after `handle_interrupt` on an initialized driver: the interrupt
/// cause register's current value has been written back to acknowledge it
/// (write-1-to-clear), and nothing else moved.
pub open spec fn spec_ack_interrupt(m: E1000Model) -> E1000Model
    recommends
        m.wf(),
{
    E1000Model {
        regs: MmioModel {
            base: m.regs.base,
            device: m.regs.device,
            log: m.regs.log.push(
                MmioWrite { offset: REG_ICR, value: m.regs.device[REG_ICR as int / 4] },
            ),
        },
        tx_descs: m.tx_descs,
        rx_descs: m.rx_descs,
        tx_buffers: m.tx_buffers,
        rx_buffers: m.rx_buffers,
        tx_cur: m.tx_cur,
        rx_cur: m.rx_cur,
        initialized: m.initialized,
    }
}

/// The device's half of receiving: a frame of `data` has been copied into
/// slot `slot`'s buffer, its length recorded, and the slot's done bit set.
pub open spec fn spec_complete_rx(m: E1000Model, slot: int, data: Seq<u8>) -> E1000Model
    recommends
        m.wf(),
        0 <= slot < RX_RING_SIZE,
        data.len() <= BUFFER_SIZE,
{
    E1000Model {
        regs: m.regs,
        tx_descs: m.tx_descs,
        rx_descs: m.rx_descs.update(
            slot,
            RxDesc {
                addr: m.rx_descs[slot].addr,
                length: data.len() as u16,
                csum: m.rx_descs[slot].csum,
                status: m.rx_descs[slot].status | 1,
                errors: m.rx_descs[slot].errors,
                special: m.rx_descs[slot].special,
            },
        ),
        tx_buffers: m.tx_buffers,
        rx_buffers: m.rx_buffers.update(slot, data + m.rx_buffers[slot].skip(data.len() as int)),
        tx_cur: m.tx_cur,
        rx_cur: m.rx_cur,
        initialized: m.initialized,
    }
}

/// The receive slot `j` steps ahead of cursor position `r`.
pub open spec fn slot_of(r: int, j: int) -> int {
    (r + j) % (RX_RING_SIZE as int)
}

/// The `j`-th pending frame sits `j` slots ahead of the receive cursor:
/// its done bit is set, its recorded length is the payload's, and the
/// slot's buffer starts with the payload's bytes.
pub open spec fn pending_at(m: E1000Model, ps: Seq<Seq<u8>>, j: int) -> bool {
    let s = slot_of(m.rx_cur, j);
    &&& ps[j].len() <= BUFFER_SIZE
    &&& m.rx_descs[s].status & 1 != 0
    &&& m.rx_descs[s].length == ps[j].len()
    &&& m.rx_buffers[s].take(ps[j].len() as int) == ps[j]
}

/// Every payload of `ps` is pending, in order, ahead of the cursor.
pub open spec fn rx_pending(m: E1000Model, ps: Seq<Seq<u8>>) -> bool {
    &&& m.wf()
    &&& m.initialized
    &&& ps.len() <= RX_RING_SIZE
    &&& forall|j: int| 0 <= j < ps.len() ==> #[trigger] pending_at(m, ps, j)
}

/// Successive `receive_packet` calls return exactly the payloads `ps`, in
/// order: each step finds the done bit set at the cursor slot, that slot
/// records exactly the next payload's length and bytes, and the state the
/// step leaves behind drains to the rest.
pub open spec fn drains_to(m: E1000Model, ps: Seq<Seq<u8>>) -> bool
    decreases ps.len(),
{
    ps.len() == 0 || {
        let d = m.rx_descs[m.rx_cur];
        &&& d.status & 1 != 0
        &&& d.length == ps[0].len()
        &&& m.rx_buffers[m.rx_cur].take(d.length as int) == ps[0]
        &&& drains_to(spec_recv_ok(m), ps.skip(1))
    }
}

/// The state after sending each payload of `ps` in turn.
pub open spec fn spec_send_all(m: E1000Model, ps: Seq<Seq<u8>>) -> E1000Model
    decreases ps.len(),
{
    if ps.len() == 0 {
        m
    } else {
        spec_send_all(spec_send(m, ps[0]), ps.skip(1))
    }
}

/// The state after the device completes receive slots `k`, `k + 1`, …
/// ahead of the cursor with the corresponding payloads of `ps`.
pub open spec fn spec_complete_from(m: E1000Model, ps: Seq<Seq<u8>>, k: int) -> E1000Model
    decreases ps.len() - k,
{
    if k < 0 || k >= ps.len() {
        m
    } else {
        spec_complete_from(spec_complete_rx(m, slot_of(m.rx_cur, k), ps[k]), ps, k + 1)
    }
}

/// Reduce a bounded modulus by the ring size.
proof fn lemma_mod_ring(x: int)
    requires
        0 <= x < 2 * RX_RING_SIZE,
    ensures
        x % (RX_RING_SIZE as int) == if x < RX_RING_SIZE {
            x
        } else {
            x - RX_RING_SIZE
        },
{
    if x < RX_RING_SIZE {
        lemma_small_mod(x as nat, RX_RING_SIZE as nat);
    } else {
        vstd::arithmetic::div_mod::lemma_mod_multiples_vanish(
            1,
            x - RX_RING_SIZE,
            RX_RING_SIZE as int,
        );
        lemma_small_mod((x - RX_RING_SIZE) as nat, RX_RING_SIZE as nat);
    }
}

/// Distinct offsets within one ring revolution land on distinct slots.
proof fn lemma_slots_distinct(r: int, i: int, j: int)
    requires
        0 <= r < RX_RING_SIZE,
        0 <= i < RX_RING_SIZE,
        0 <= j < RX_RING_SIZE,
        i != j,
    ensures
        slot_of(r, i) != slot_of(r, j),
{
    lemma_mod_ring(r + i);
    lemma_mod_ring(r + j);
}

/// Stepping the cursor shifts every pending offset down by one slot.
proof fn lemma_slot_shift(r: int, j: int)
    requires
        0 <= r < RX_RING_SIZE,
        0 <= j < RX_RING_SIZE,
    ensures
        slot_of((r + 1) % (RX_RING_SIZE as int), j) == slot_of(r, j + 1),
{
    lemma_mod_ring(r + 1);
    if r + 1 < RX_RING_SIZE {
        assert(slot_of(r + 1, j) == slot_of(r, j + 1));
    } else {
        lemma_mod_ring(j);
        vstd::arithmetic::div_mod::lemma_mod_multiples_vanish(
            1,
            r + 1 - RX_RING_SIZE + j,
            RX_RING_SIZE as int,
        );
    }
}

/// Sending any run of frames leaves the whole receive side — descriptors,
/// buffers and cursor — exactly as it was, and preserves well-formedness.
pub proof fn lemma_send_all_preserves_rx(m: E1000Model, ps: Seq<Seq<u8>>)
    requires
        m.wf(),
        m.initialized,
        forall|j: int| 0 <= j < ps.len() ==> (#[trigger] ps[j]).len() <= BUFFER_SIZE,
    ensures
        spec_send_all(m, ps).wf(),
        spec_send_all(m, ps).initialized,
        spec_send_all(m, ps).rx_descs == m.rx_descs,
        spec_send_all(m, ps).rx_buffers == m.rx_buffers,
        spec_send_all(m, ps).rx_cur == m.rx_cur,
    decreases ps.len(),
{
    if ps.len() > 0 {
        let m1 = spec_send(m, ps[0]);
        assert(m1.wf()) by {
            assert(forall|i: int|
                0 <= i < TX_RING_SIZE ==> (#[trigger] m1.tx_buffers[i]).len() == BUFFER_SIZE);
        }
        assert(forall|j: int|
            0 <= j < ps.skip(1).len() ==> (#[trigger] ps.skip(1)[j]).len() <= BUFFER_SIZE);
        lemma_send_all_preserves_rx(m1, ps.skip(1));
    }
}

/// Completing the pending slots from offset `k` on marks exactly those
/// slots done with the corresponding payloads, touches nothing else on
/// the receive side, and moves neither cursor nor register traffic.
pub proof fn lemma_complete_from_pending(m: E1000Model, ps: Seq<Seq<u8>>, k: int)
    requires
        m.wf(),
        m.initialized,
        ps.len() <= RX_RING_SIZE,
        0 <= k <= ps.len(),
        forall|j: int| 0 <= j < ps.len() ==> (#[trigger] ps[j]).len() <= BUFFER_SIZE,
    ensures
        spec_complete_from(m, ps, k).wf(),
        spec_complete_from(m, ps, k).initialized,
        spec_complete_from(m, ps, k).rx_cur == m.rx_cur,
        forall|j: int|
            k <= j < ps.len() ==> {
                let s = #[trigger] slot_of(m.rx_cur, j);
                let mc = spec_complete_from(m, ps, k);
                &&& mc.rx_descs[s].status & 1 != 0
                &&& mc.rx_descs[s].length == ps[j].len()
                &&& mc.rx_buffers[s].take(ps[j].len() as int) == ps[j]
            },
        forall|j: int|
            0 <= j < k || ps.len() <= j < RX_RING_SIZE ==> {
                let s = #[trigger] slot_of(m.rx_cur, j);
                let mc = spec_complete_from(m, ps, k);
                &&& mc.rx_descs[s] == m.rx_descs[s]
                &&& mc.rx_buffers[s] == m.rx_buffers[s]
            },
    decreases ps.len() - k,
{
    if k < ps.len() {
        let s_k = slot_of(m.rx_cur, k);
        lemma_mod_ring(m.rx_cur + k);
        let mb = spec_complete_rx(m, s_k, ps[k]);
        assert(mb.wf()) by {
            assert(forall|i: int|
                0 <= i < RX_RING_SIZE ==> (#[trigger] mb.rx_buffers[i]).len() == BUFFER_SIZE);
            assert(mb.rx_buffers[s_k].len() == BUFFER_SIZE);
        }
        assert(mb.rx_buffers[s_k].take(ps[k].len() as int) == ps[k]) by {
            assert(mb.rx_buffers[s_k] == ps[k] + m.rx_buffers[s_k].skip(ps[k].len() as int));
            assert(mb.rx_buffers[s_k].take(ps[k].len() as int) =~= ps[k]);
        }
        lemma_complete_from_pending(mb, ps, k + 1);
        assert forall|j: int| 0 <= j < k || ps.len() <= j < RX_RING_SIZE implies {
            let s = #[trigger] slot_of(m.rx_cur, j);
            let mc = spec_complete_from(m, ps, k);
            &&& mc.rx_descs[s] == m.rx_descs[s]
            &&& mc.rx_buffers[s] == m.rx_buffers[s]
        } by {
            let s = slot_of(m.rx_cur, j);
            lemma_slots_distinct(m.rx_cur, j, k);
            assert(slot_of(mb.rx_cur, j) == s);
            assert(mb.rx_descs[s] == m.rx_descs[s]);
            assert(mb.rx_buffers[s] == m.rx_buffers[s]);
        }
        assert forall|j: int| k <= j < ps.len() implies {
            let s = #[trigger] slot_of(m.rx_cur, j);
            let mc = spec_complete_from(m, ps, k);
            &&& mc.rx_descs[s].status & 1 != 0
            &&& mc.rx_descs[s].length == ps[j].len()
            &&& mc.rx_buffers[s].take(ps[j].len() as int) == ps[j]
        } by {
            let s = slot_of(m.rx_cur, j);
            assert(slot_of(mb.rx_cur, j) == s);
            if j == k {
                let st = m.rx_descs[s_k].status;
                assert((st | 1) & 1 != 0) by (bit_vector);
                // the completes from k + 1 on leave slot k alone
                assert(spec_complete_from(mb, ps, k + 1).rx_descs[s] == mb.rx_descs[s]);
                assert(spec_complete_from(mb, ps, k + 1).rx_buffers[s] == mb.rx_buffers[s]);
            }
        }
    }
}

/// Once every payload of `ps` is pending ahead of the cursor, successive
/// receives drain them back in order.
pub proof fn lemma_rx_pending_drains(m: E1000Model, ps: Seq<Seq<u8>>)
    requires
        rx_pending(m, ps),
    ensures
        drains_to(m, ps),
    decreases ps.len(),
{
    if ps.len() > 0 {
        let r = m.rx_cur;
        lemma_small_mod(r as nat, RX_RING_SIZE as nat);
        assert(slot_of(r, 0) == r);
        assert(pending_at(m, ps, 0));
        assert(m.rx_descs[r].status & 1 != 0 && m.rx_descs[r].length == ps[0].len()
            && m.rx_buffers[r].take(ps[0].len() as int) == ps[0]);
        let m2 = spec_recv_ok(m);
        assert(m2.wf());
        assert forall|j: int| 0 <= j < ps.skip(1).len() implies #[trigger] pending_at(
            m2,
            ps.skip(1),
            j,
        ) by {
            lemma_slot_shift(r, j);
            lemma_slots_distinct(r, j + 1, 0);
            assert(pending_at(m, ps, j + 1));
            assert(ps.skip(1)[j] == ps[j + 1]);
            assert(slot_of(m2.rx_cur, j) == slot_of(r, j + 1));
        }
        lemma_rx_pending_drains(m2, ps.skip(1));
    }
}

/// Law (loopback): starting from any initialized, well-formed driver
/// state, send any `N ≤` ring-capacity payloads in turn, let the device
/// complete the `N` receive slots ahead of the cursor with those same
/// lengths and bytes — as a loopback link or a hardware simulation double
/// would — and the next `N` `receive_packet` calls return exactly the
/// original payloads, in the original order.
pub proof fn lemma_loopback(m: E1000Model, ps: Seq<Seq<u8>>)
    requires
        m.wf(),
        m.initialized,
        ps.len() <= RX_RING_SIZE,
        forall|j: int| 0 <= j < ps.len() ==> (#[trigger] ps[j]).len() <= BUFFER_SIZE,
    ensures
        drains_to(spec_complete_from(spec_send_all(m, ps), ps, 0), ps),
{
    lemma_send_all_preserves_rx(m, ps);
    let m1 = spec_send_all(m, ps);
    lemma_complete_from_pending(m1, ps, 0);
    let m2 = spec_complete_from(m1, ps, 0);
    assert forall|j: int| 0 <= j < ps.len() implies #[trigger] pending_at(m2, ps, j) by {
        assert(slot_of(m1.rx_cur, j) == slot_of(m2.rx_cur, j));
    }
    assert(rx_pending(m2, ps));
    lemma_rx_pending_drains(m2, ps);
}

/// Every descriptor's address field names its paired buffer's (distinct,
/// fixed) model address.
pub open spec fn addresses_bound(m: E1000Model) -> bool {
    &&& forall|i: int|
        0 <= i < TX_RING_SIZE ==> (#[trigger] m.tx_descs[i]).addr == tx_slot_addr(i)
    &&& forall|i: int|
        0 <= i < RX_RING_SIZE ==> (#[trigger] m.rx_descs[i]).addr == rx_slot_addr(i)
}

/// Law: `init` binds each descriptor to its paired buffer's address, and
/// no later operation — sending, receiving, an interrupt acknowledgment,
/// or the device completing a slot — moves that binding.
pub proof fn lemma_descriptor_addresses_stable(m: E1000Model, data: Seq<u8>, slot: int)
    requires
        m.wf(),
        0 <= slot < RX_RING_SIZE,
    ensures
        addresses_bound(spec_init(m)),
        addresses_bound(m) ==> addresses_bound(spec_send(m, data)),
        addresses_bound(m) ==> addresses_bound(spec_recv_ok(m)),
        addresses_bound(m) ==> addresses_bound(spec_complete_rx(m, slot, data)),
        addresses_bound(m) ==> addresses_bound(spec_ack_interrupt(m)),
{
}

/// Network driver errors.
#[derive(Clone, Copy, Debug, PartialEq, Eq, Structural)]
pub enum NetError {
    NotInitialized,
    BufferTooSmall,
    NoPacket,
}

impl NetError {
    /// A short description of the error.
    pub fn as_str(&self) -> (r: &'static str)
        ensures
            self is NotInitialized ==> r@ == "Driver not initialized"@,
            self is BufferTooSmall ==> r@ == "Buffer too small"@,
            self is NoPacket ==> r@ == "No packet available"@,
    {
        match self {
            NetError::NotInitialized => "Driver not initialized",
            NetError::BufferTooSmall => "Buffer too small",
            NetError::NoPacket => "No packet available",
        }
    }
}

/// Intel-family gigabit Ethernet driver over a memory-mapped register
/// window.
pub struct E1000Driver {
    regs: MmioRegisters,
    tx_descs: Vec<TxDesc>,
    rx_descs: Vec<RxDesc>,
    tx_buffers: Vec<Vec<u8>>,
    rx_buffers: Vec<Vec<u8>>,
    tx_cur: usize,
    rx_cur: usize,
    initialized: bool,
}

impl View for E1000Driver {
    type V = E1000Model;

    closed spec fn view(&self) -> E1000Model {
        E1000Model {
            regs: self.regs@,
            tx_descs: self.tx_descs@,
            rx_descs: self.rx_descs@,
            tx_buffers: self.tx_buffers@.map_values(|b: Vec<u8>| b@),
            rx_buffers: self.rx_buffers@.map_values(|b: Vec<u8>| b@),
            tx_cur: self.tx_cur as int,
            rx_cur: self.rx_cur as int,
            initialized: self.initialized,
        }
    }
}

/// A zeroed DMA buffer.
fn zero_buffer() -> (r: Vec<u8>)
    ensures
        r@ == zero_buffer_bytes(),
{
    let mut b: Vec<u8> = Vec::new();
    let mut i: usize = 0;
    while i < BUFFER_SIZE
        invariant
            i <= BUFFER_SIZE,
            b@.len() == i,
            forall|j: int| 0 <= j < i ==> b@[j] == 0u8,
        decreases BUFFER_SIZE - i,
    {
        b.push(0);
        i = i + 1;
    }
    proof {
        assert(b@ =~= zero_buffer_bytes());
    }
    b
}

impl E1000Driver {
    /// Well-formedness of the driver's model.
    pub open spec fn wf(&self) -> bool {
        self@.wf()
    }

    /// Create a new driver instance over the register window at
    /// `mmio_base`. Both rings are pre-allocated and zeroed; the driver
    /// starts uninitialized and issues no register write.
    pub fn new(mmio_base: usize) -> (r: E1000Driver)
        ensures
            r.wf(),
            r@.regs.base == mmio_base,
            r@.regs.log.len() == 0,
            r@.tx_cur == 0,
            r@.rx_cur == 0,
            !r@.initialized,
            forall|i: int|
                0 <= i < TX_RING_SIZE ==> r@.tx_descs[i] == (TxDesc {
                    addr: 0,
                    length: 0,
                    cso: 0,
                    cmd: 0,
                    status: 0,
                    css: 0,
                    special: 0,
                }),
            forall|i: int|
                0 <= i < RX_RING_SIZE ==> r@.rx_descs[i] == (RxDesc {
                    addr: 0,
                    length: 0,
                    csum: 0,
                    status: 0,
                    errors: 0,
                    special: 0,
                }),
            forall|i: int|
                0 <= i < TX_RING_SIZE ==> #[trigger] r@.tx_buffers[i] == zero_buffer_bytes(),
            forall|i: int|
                0 <= i < RX_RING_SIZE ==> #[trigger] r@.rx_buffers[i] == zero_buffer_bytes(),
    {
        let mut tx_descs: Vec<TxDesc> = Vec::new();
        let mut tx_buffers: Vec<Vec<u8>> = Vec::new();
        let mut i: usize = 0;
        while i < TX_RING_SIZE
            invariant
                i <= TX_RING_SIZE,
                tx_descs@.len() == i,
                tx_buffers@.len() == i,
                forall|j: int|
                    0 <= j < i ==> tx_descs@[j] == (TxDesc {
                        addr: 0,
                        length: 0,
                        cso: 0,
                        cmd: 0,
                        status: 0,
                        css: 0,
                        special: 0,
                    }),
                forall|j: int| 0 <= j < i ==> (#[trigger] tx_buffers@[j])@ == zero_buffer_bytes(),
            decreases TX_RING_SIZE - i,
        {
            tx_descs.push(
                TxDesc { addr: 0, length: 0, cso: 0, cmd: 0, status: 0, css: 0, special: 0 },
            );
            tx_buffers.push(zero_buffer());
            i = i + 1;
        }

        let mut rx_descs: Vec<RxDesc> = Vec::new();
        let mut rx_buffers: Vec<Vec<u8>> = Vec::new();
        let mut k: usize = 0;
        while k < RX_RING_SIZE
            invariant
                k <= RX_RING_SIZE,
                rx_descs@.len() == k,
                rx_buffers@.len() == k,
                forall|j: int|
                    0 <= j < k ==> rx_descs@[j] == (RxDesc {
                        addr: 0,
                        length: 0,
                        csum: 0,
                        status: 0,
                        errors: 0,
                        special: 0,
                    }),
                forall|j: int| 0 <= j < k ==> (#[trigger] rx_buffers@[j])@ == zero_buffer_bytes(),
            decreases RX_RING_SIZE - k,
        {
            rx_descs.push(
                RxDesc { addr: 0, length: 0, csum: 0, status: 0, errors: 0, special: 0 },
            );
            rx_buffers.push(zero_buffer());
            k = k + 1;
        }

        E1000Driver {
            regs: MmioRegisters::new(mmio_base, REG_WORDS),
            tx_descs,
            rx_descs,
            tx_buffers,
            rx_buffers,
            tx_cur: 0,
            rx_cur: 0,
            initialized: false,
        }
    }

    /// The base address of the register window.
    pub fn mmio_base(&self) -> (r: usize)
        ensures
            r == self@.regs.base,
    {
        self.regs.base()
    }

    /// Whether `init` has completed.
    pub fn is_initialized(&self) -> (r: bool)
        ensures
            r == self@.initialized,
    {
        self.initialized
    }

    /// The transmit cursor: the next slot `send_packet` will fill.
    pub fn tx_cursor(&self) -> (r: usize)
        ensures
            r == self@.tx_cur,
    {
        self.tx_cur
    }

    /// The receive cursor: the next slot `receive_packet` will poll.
    pub fn rx_cursor(&self) -> (r: usize)
        ensures
            r == self@.rx_cur,
    {
        self.rx_cur
    }

    /// The driver's register window, for inspecting the write log.
    pub fn registers(&self) -> (r: &MmioRegisters)
        ensures
            r@ == self@.regs,
    {
        &self.regs
    }

    /// Device side: present `value` in the register at byte offset
    /// `offset`, as the hardware or a simulation double would.
    pub fn device_set_register(&mut self, offset: u32, value: u32)
        requires
            old(self).wf(),
            offset / 4 < REG_WORDS,
        ensures
            final(self).wf(),
            final(self)@ == (E1000Model {
                regs: MmioModel {
                    base: old(self)@.regs.base,
                    device: old(self)@.regs.device.update(offset as int / 4, value),
                    log: old(self)@.regs.log,
                },
                tx_descs: old(self)@.tx_descs,
                rx_descs: old(self)@.rx_descs,
                tx_buffers: old(self)@.tx_buffers,
                rx_buffers: old(self)@.rx_buffers,
                tx_cur: old(self)@.tx_cur,
                rx_cur: old(self)@.rx_cur,
                initialized: old(self)@.initialized,
            }),
    {
        self.regs.device_set(offset, value);
        proof {
            assert(self@ =~~= (E1000Model {
                regs: MmioModel {
                    base: old(self)@.regs.base,
                    device: old(self)@.regs.device.update(offset as int / 4, value),
                    log: old(self)@.regs.log,
                },
                tx_descs: old(self)@.tx_descs,
                rx_descs: old(self)@.rx_descs,
                tx_buffers: old(self)@.tx_buffers,
                rx_buffers: old(self)@.rx_buffers,
                tx_cur: old(self)@.tx_cur,
                rx_cur: old(self)@.rx_cur,
                initialized: old(self)@.initialized,
            }));
        }
    }

    /// Device side: complete receive slot `slot` with a frame holding
    /// `data`, recording its length and setting the slot's done bit, as the
    /// DMA engine would.
    pub fn device_complete_rx(&mut self, slot: usize, data: &[u8])
        requires
            old(self).wf(),
            slot < RX_RING_SIZE,
            data@.len() <= BUFFER_SIZE,
        ensures
            final(self).wf(),
            final(self)@ == spec_complete_rx(old(self)@, slot as int, data@),
    {
        let n = data.len();
        proof {
            assert(self.rx_buffers@[slot as int]@ == self@.rx_buffers[slot as int]);
            assert(self@.rx_buffers[slot as int].len() == BUFFER_SIZE);
        }
        copy_prefix(&mut self.rx_buffers[slot], data, n);
        let mut d = self.rx_descs[slot];
        d.length = n as u16;
        d.status = d.status | 1;
        self.rx_descs.set(slot, d);
        proof {
            assert(data@.take(n as int) == data@);
            assert(self@.rx_buffers =~~= spec_complete_rx(old(self)@, slot as int, data@)
                .rx_buffers);
            assert(self@ =~~= spec_complete_rx(old(self)@, slot as int, data@));
        }
    }

    /// Initialize the device and DMA rings: reset, program both rings'
    /// base addresses, lengths and head/tail registers, bind every
    /// descriptor to its paired buffer, and enable transmit and receive.
    /// The reset is issued without a bounded completion poll: this
    /// device family is trusted to come out of reset on its own, where
    /// the port-mapped drivers poll with a retry budget.
    pub fn init(&mut self)
        requires
            old(self).wf(),
        ensures
            final(self).wf(),
            final(self)@ == spec_init(old(self)@),
    {
        // Reset device
        self.regs.write(REG_CTRL, 0x04000000);
        self.regs.write(REG_CTRL, 0x00000000);
        proof {
            assert(self.regs@.log =~= old(self)@.regs.log + init_log().take(2));
        }

        // Initialize transmit ring
        let mut i: usize = 0;
        while i < TX_RING_SIZE
            invariant
                old(self).wf(),
                i <= TX_RING_SIZE,
                self.tx_descs@.len() == TX_RING_SIZE,
                forall|j: int|
                    0 <= j < i ==> self.tx_descs@[j] == (TxDesc {
                        addr: tx_slot_addr(j),
                        length: old(self)@.tx_descs[j].length,
                        cso: old(self)@.tx_descs[j].cso,
                        cmd: old(self)@.tx_descs[j].cmd,
                        status: 0x1,
                        css: old(self)@.tx_descs[j].css,
                        special: old(self)@.tx_descs[j].special,
                    }),
                forall|j: int|
                    i <= j < TX_RING_SIZE ==> self.tx_descs@[j] == old(self)@.tx_descs[j],
                self.rx_descs@ == old(self)@.rx_descs,
                self.tx_buffers@.map_values(|b: Vec<u8>| b@) == old(self)@.tx_buffers,
                self.rx_buffers@.map_values(|b: Vec<u8>| b@) == old(self)@.rx_buffers,
                self.tx_cur == old(self)@.tx_cur,
                self.rx_cur == old(self)@.rx_cur,
                self.initialized == old(self)@.initialized,
                self.regs@.base == old(self)@.regs.base,
                self.regs@.device == old(self)@.regs.device,
                self.regs@.log == old(self)@.regs.log + init_log().take(2),
            decreases TX_RING_SIZE - i,
        {
            let mut d = self.tx_descs[i];
            d.addr = TX_BUF_BASE + (i as u64) * (BUFFER_SIZE as u64);
            d.status = 0x1;
            self.tx_descs.set(i, d);
            i = i + 1;
        }
        let tx_base: u64 = TX_DESC_BASE;
        proof {
            assert(0x0010_0000u64 & 0xFFFF_FFFF == 0x0010_0000) by (bit_vector);
        }
        self.regs.write(REG_TDBAL, (tx_base & 0xFFFF_FFFF) as u32);
        self.regs.write(REG_TDBAH, (tx_base >> 32u64) as u32);
        self.regs.write(REG_TDLEN, 256);
        self.regs.write(REG_TDH, 0);
        self.regs.write(REG_TDT, 0);
        proof {
            assert(self.regs@.log =~= old(self)@.regs.log + init_log().take(7));
        }

        // Initialize receive ring
        let mut k: usize = 0;
        while k < RX_RING_SIZE
            invariant
                old(self).wf(),
                k <= RX_RING_SIZE,
                self.rx_descs@.len() == RX_RING_SIZE,
                forall|j: int|
                    0 <= j < k ==> self.rx_descs@[j] == (RxDesc {
                        addr: rx_slot_addr(j),
                        length: old(self)@.rx_descs[j].length,
                        csum: old(self)@.rx_descs[j].csum,
                        status: old(self)@.rx_descs[j].status,
                        errors: old(self)@.rx_descs[j].errors,
                        special: old(self)@.rx_descs[j].special,
                    }),
                forall|j: int|
                    k <= j < RX_RING_SIZE ==> self.rx_descs@[j] == old(self)@.rx_descs[j],
                self.tx_descs@ == spec_init(old(self)@).tx_descs,
                self.tx_buffers@.map_values(|b: Vec<u8>| b@) == old(self)@.tx_buffers,
                self.rx_buffers@.map_values(|b: Vec<u8>| b@) == old(self)@.rx_buffers,
                self.tx_cur == old(self)@.tx_cur,
                self.rx_cur == old(self)@.rx_cur,
                self.initialized == old(self)@.initialized,
                self.regs@.base == old(self)@.regs.base,
                self.regs@.device == old(self)@.regs.device,
                self.regs@.log == old(self)@.regs.log + init_log().take(7),
            decreases RX_RING_SIZE - k,
        {
            let mut d = self.rx_descs[k];
            d.addr = RX_BUF_BASE + (k as u64) * (BUFFER_SIZE as u64);
            self.rx_descs.set(k, d);
            k = k + 1;
        }
        let rx_base: u64 = RX_DESC_BASE;
        proof {
            assert(0x0010_1000u64 & 0xFFFF_FFFF == 0x0010_1000) by (bit_vector);
        }
        self.regs.write(REG_RDBAL, (rx_base & 0xFFFF_FFFF) as u32);
        self.regs.write(REG_RDBAH, (rx_base >> 32u64) as u32);
        self.regs.write(REG_RDLEN, 256);
        self.regs.write(REG_RDH, 0);
        self.regs.write(REG_RDT, (RX_RING_SIZE as u32) - 1);

        // Enable transmitter and receiver
        self.regs.write(REG_TCTL, 0x0000000C);
        self.regs.write(REG_RCTL, 0x00000002);

        self.initialized = true;
        proof {
            assert(self.tx_descs@ =~= spec_init(old(self)@).tx_descs);
            assert(self.rx_descs@ =~= spec_init(old(self)@).rx_descs);
            assert(self.regs@.log =~= old(self)@.regs.log + init_log());
            assert(self@ =~~= spec_init(old(self)@));
        }
    }

    /// Send an Ethernet frame.
    ///
    /// Fails `NotInitialized` before `init` and `BufferTooSmall` when the
    /// payload exceeds the per-slot buffer, in both cases leaving every
    /// descriptor, buffer and cursor — and the register log — unchanged.
    /// Otherwise copies the payload into the cursor slot, hands the slot
    /// to the hardware and rings the transmit doorbell; success means the
    /// doorbell write was issued, not that transmission completed. No
    /// check keeps software from advancing into a slot the hardware has
    /// not finished with: the capacity acts as a wraparound modulus, not
    /// a backpressure limit.
    pub fn send_packet(&mut self, data: &[u8]) -> (r: Result<(), NetError>)
        requires
            old(self).wf(),
        ensures
            final(self).wf(),
            !old(self)@.initialized ==> r == Err::<(), NetError>(NetError::NotInitialized)
                && final(self)@ == old(self)@,
            old(self)@.initialized && data@.len() > BUFFER_SIZE ==> r == Err::<(), NetError>(
                NetError::BufferTooSmall,
            ) && final(self)@ == old(self)@,
            old(self)@.initialized && data@.len() <= BUFFER_SIZE ==> r == Ok::<(), NetError>(())
                && final(self)@ == spec_send(old(self)@, data@),
    {
        if !self.initialized {
            return Err(NetError::NotInitialized);
        }
        if data.len() > BUFFER_SIZE {
            return Err(NetError::BufferTooSmall);
        }

        proof {
            lemma_small_mod(old(self)@.tx_cur as nat, TX_RING_SIZE as nat);
        }
        let idx = self.tx_cur % TX_RING_SIZE;
        let n = data.len();
        proof {
            assert(self.tx_buffers@[idx as int]@ == self@.tx_buffers[idx as int]);
            assert(self@.tx_buffers[idx as int].len() == BUFFER_SIZE);
        }
        copy_prefix(&mut self.tx_buffers[idx], data, n);

        let mut d = self.tx_descs[idx];
        d.length = n as u16;
        d.cmd = 0b0000_1011;  // EOP + IFCS + RS
        d.status = 0;
        self.tx_descs.set(idx, d);

        self.tx_cur = advance_cursor(self.tx_cur, TX_RING_SIZE);
        self.regs.write(REG_TDT, self.tx_cur as u32);
        proof {
            assert(data@.take(n as int) == data@);
            assert(self@.tx_buffers =~~= spec_send(old(self)@, data@).tx_buffers);
            assert(self@ =~~= spec_send(old(self)@, data@));
        }
        Ok(())
    }

    /// Receive an Ethernet frame into the front of `buffer`.
    ///
    /// Fails `NotInitialized` before `init`. Polls the cursor slot exactly
    /// once: if the device has not set its done bit, fails `NoPacket`
    /// without advancing the cursor. If the recorded frame is longer than
    /// `buffer`, fails `BufferTooSmall` without consuming the descriptor,
    /// so a retry with a larger buffer can still collect the frame. In
    /// every failing case the driver and `buffer` are left unchanged.
    /// On success returns the frame length `n`: the first `n` bytes of
    /// `buffer` hold the frame, the slot is handed back to the device and
    /// the cursor advances one slot.
    pub fn receive_packet(&mut self, buffer: &mut Vec<u8>) -> (r: Result<usize, NetError>)
        requires
            old(self).wf(),
        ensures
            final(self).wf(),
            !old(self)@.initialized ==> r == Err::<usize, NetError>(NetError::NotInitialized)
                && final(self)@ == old(self)@ && final(buffer)@ == old(buffer)@,
            old(self)@.initialized && old(self)@.rx_descs[old(self)@.rx_cur].status & 1 == 0
                ==> r == Err::<usize, NetError>(NetError::NoPacket) && final(self)@ == old(self)@
                && final(buffer)@ == old(buffer)@,
            old(self)@.initialized && old(self)@.rx_descs[old(self)@.rx_cur].status & 1 != 0 && (
            old(self)@.rx_descs[old(self)@.rx_cur].length > old(buffer)@.len()) ==> r == Err::<
                usize,
                NetError,
            >(NetError::BufferTooSmall) && final(self)@ == old(self)@ && final(buffer)@ == old(
                buffer,
            )@,
            old(self)@.initialized && old(self)@.rx_descs[old(self)@.rx_cur].status & 1 != 0 && (
            old(self)@.rx_descs[old(self)@.rx_cur].length <= old(buffer)@.len()) ==> {
                let n = old(self)@.rx_descs[old(self)@.rx_cur].length as int;
                &&& r == Ok::<usize, NetError>(
                    old(self)@.rx_descs[old(self)@.rx_cur].length as usize,
                )
                &&& final(buffer)@ == old(self)@.rx_buffers[old(self)@.rx_cur].take(n) + old(
                    buffer,
                )@.skip(n)
                &&& final(self)@ == spec_recv_ok(old(self)@)
            },
    {
        if !self.initialized {
            return Err(NetError::NotInitialized);
        }

        proof {
            lemma_small_mod(old(self)@.rx_cur as nat, RX_RING_SIZE as nat);
        }
        let idx = self.rx_cur % RX_RING_SIZE;
        let d = self.rx_descs[idx];
        if d.status & 1 == 0 {
            return Err(NetError::NoPacket);
        }

        let length = d.length as usize;
        if length > buffer.len() {
            return Err(NetError::BufferTooSmall);
        }

        proof {
            assert(self.rx_buffers@[idx as int]@ == self@.rx_buffers[idx as int]);
            assert(self@.rx_buffers[idx as int].len() == BUFFER_SIZE);
        }
        copy_prefix(buffer, self.rx_buffers[idx].as_slice(), length);
        let mut nd = self.rx_descs[idx];
        nd.status = 0;
        self.rx_descs.set(idx, nd);
        self.rx_cur = advance_cursor(self.rx_cur, RX_RING_SIZE);
        self.regs.write(REG_RDT, ((self.rx_cur + RX_RING_SIZE - 1) % RX_RING_SIZE) as u32);
        proof {
            assert(self@ =~~= spec_recv_ok(old(self)@));
        }
        Ok(length)
    }

    /// Handle an interrupt from the device: read the interrupt cause
    /// register and write the same value back to acknowledge it. A no-op
    /// before `init`; purely an acknowledgment otherwise.
    pub fn handle_interrupt(&mut self)
        requires
            old(self).wf(),
        ensures
            final(self).wf(),
            !old(self)@.initialized ==> final(self)@ == old(self)@,
            old(self)@.initialized ==> final(self)@ == spec_ack_interrupt(old(self)@),
    {
        if !self.initialized {
            return ;
        }

        let icr = self.regs.read(REG_ICR);
        // Acknowledge interrupts by writing back the value
        self.regs.write(REG_ICR, icr);
        proof {
            assert(self@ =~~= spec_ack_interrupt(old(self)@));
        }
    }
}

} // verus!
