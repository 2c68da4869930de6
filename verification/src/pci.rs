//! PCI bus scanning.
//!
//! Discovery walks all 256 buses × 32 devices × 8 functions of the
//! configuration space through a two-port, 32-bit mechanism: a composed
//! address — bus, device, function, register offset aligned down to four
//! bytes, and a fixed enable bit — selects a dword, and narrower reads are
//! carved out of that dword by shifting and masking. A device is absent
//! exactly when the vendor-id word at offset 0 reads `0xFFFF`.
//!
//! The configuration space itself is a read-only snapshot handed in as
//! data: a table from composed addresses to dwords, with every address not
//! in the table reading back as all-ones, the way an empty slot does on
//! the bus. The unverified shim that owns the real address/data port pair
//! fills such a snapshot; tests build one directly.

use vstd::prelude::*;

verus! {

/// PCI device identifier: silicon, not a specific slot.
#[derive(Debug, Clone, Copy, PartialEq, Eq, Structural)]
pub struct PciDeviceId {
    pub vendor_id: u16,
    pub device_id: u16,
}

/// Basic PCI device information: an immutable snapshot produced by a scan.
#[derive(Debug, Clone, Copy, PartialEq, Eq, Structural)]
pub struct PciDevice {
    pub bus: u8,
    pub device: u8,
    pub function: u8,
    pub id: PciDeviceId,
    pub class: u8,
    pub subclass: u8,
    pub bar0: u32,
}

/// The composed configuration address: bus, device, function, the
/// register offset aligned down to 4 bytes, and the enable bit.
pub open spec fn config_address(bus: u8, device: u8, function: u8, offset: u8) -> u32 {
    ((bus as u32) << 16u32) | ((device as u32) << 11u32) | ((function as u32) << 8u32) | ((
    offset as u32) & 0xFC) | 0x8000_0000
}

/// The dword a configuration-space snapshot presents at `addr`: the first
/// table entry for that address, or all-ones where none exists — an
/// absent device reads back `0xFFFF_FFFF`.
pub open spec fn cfg_value(entries: Seq<(u32, u32)>, addr: u32) -> u32
    decreases entries.len(),
{
    if entries.len() == 0 {
        0xFFFF_FFFF
    } else if entries[0].0 == addr {
        entries[0].1
    } else {
        cfg_value(entries.skip(1), addr)
    }
}

/// The dword read for (bus, device, function, offset).
pub open spec fn cfg_dword(
    entries: Seq<(u32, u32)>,
    bus: u8,
    device: u8,
    function: u8,
    offset: u8,
) -> u32 {
    cfg_value(entries, config_address(bus, device, function, offset))
}

/// The 16-bit read at `offset`: carved out of the containing dword by the
/// offset's word parity.
pub open spec fn cfg_word(
    entries: Seq<(u32, u32)>,
    bus: u8,
    device: u8,
    function: u8,
    offset: u8,
) -> u16 {
    ((cfg_dword(entries, bus, device, function, offset) >> (((offset as u32) & 2) * 8)) & 0xFFFF)
        as u16
}

/// The 8-bit read at `offset`: carved out of the containing word by the
/// offset's byte parity.
pub open spec fn cfg_byte(
    entries: Seq<(u32, u32)>,
    bus: u8,
    device: u8,
    function: u8,
    offset: u8,
) -> u8 {
    (cfg_word(entries, bus, device, function, (offset & 0xFE) as u8) >> (((offset as u16) & 1)
        * 8)) as u8
}

/// A function is present exactly when its vendor-id word is not `0xFFFF`.
pub open spec fn spec_device_exists(
    entries: Seq<(u32, u32)>,
    bus: u8,
    device: u8,
    function: u8,
) -> bool {
    cfg_word(entries, bus, device, function, 0) != 0xFFFF
}

/// The device snapshot read from (bus, device, function).
pub open spec fn spec_read_device(
    entries: Seq<(u32, u32)>,
    bus: u8,
    device: u8,
    function: u8,
) -> PciDevice {
    PciDevice {
        bus,
        device,
        function,
        id: PciDeviceId {
            vendor_id: cfg_word(entries, bus, device, function, 0x00),
            device_id: cfg_word(entries, bus, device, function, 0x02),
        },
        class: (cfg_dword(entries, bus, device, function, 0x08) >> 24u32) as u8,
        subclass: (cfg_dword(entries, bus, device, function, 0x08) >> 16u32) as u8,
        bar0: cfg_dword(entries, bus, device, function, 0x10),
    }
}

/// The devices a slot's functions `func`, `func + 1`, … contribute, in
/// function order, skipping absent functions.
pub open spec fn funcs_from(entries: Seq<(u32, u32)>, bus: u8, device: u8, func: int) -> Seq<
    PciDevice,
>
    decreases 8 - func,
{
    if func < 0 || func >= 8 {
        Seq::empty()
    } else {
        let rest = funcs_from(entries, bus, device, func + 1);
        if spec_device_exists(entries, bus, device, func as u8) {
            seq![spec_read_device(entries, bus, device, func as u8)] + rest
        } else {
            rest
        }
    }
}

/// The devices one (bus, device) slot contributes: none when function 0
/// is absent — single-function devices never populate higher functions —
/// and otherwise every present function, in order.
pub open spec fn slot_devices(entries: Seq<(u32, u32)>, bus: u8, device: u8) -> Seq<PciDevice> {
    if spec_device_exists(entries, bus, device, 0) {
        funcs_from(entries, bus, device, 0)
    } else {
        Seq::empty()
    }
}

/// The devices contributed by slots `idx`, `idx + 1`, … of the 8192
/// (bus, device) slots, in scan order.
pub open spec fn scan_from(entries: Seq<(u32, u32)>, idx: int) -> Seq<PciDevice>
    decreases 8192 - idx,
{
    if idx < 0 || idx >= 8192 {
        Seq::empty()
    } else {
        slot_devices(entries, (idx / 32) as u8, (idx % 32) as u8) + scan_from(entries, idx + 1)
    }
}

/// The whole scan: all slots in (bus, then device, then function) order.
pub open spec fn spec_scan(entries: Seq<(u32, u32)>) -> Seq<PciDevice> {
    scan_from(entries, 0)
}

/// A read-only snapshot of the configuration space: composed addresses
/// mapped to dwords, all-ones everywhere else.
pub struct PciConfigSpace {
    entries: Vec<(u32, u32)>,
}

impl View for PciConfigSpace {
    type V = Seq<(u32, u32)>;

    closed spec fn view(&self) -> Seq<(u32, u32)> {
        self.entries@
    }
}

impl PciConfigSpace {
    /// A snapshot with no devices: every probe reads back all-ones.
    pub fn new() -> (r: PciConfigSpace)
        ensures
            r@ == Seq::<(u32, u32)>::empty(),
    {
        let r = PciConfigSpace { entries: Vec::new() };
        proof {
            assert(r@ =~= Seq::<(u32, u32)>::empty());
        }
        r
    }

    /// Record that (bus, device, function) presents `value` in the dword
    /// at `offset`. The first recording for an address wins.
    pub fn set(&mut self, bus: u8, device: u8, function: u8, offset: u8, value: u32)
        ensures
            final(self)@ == old(self)@.push((config_address(bus, device, function, offset), value)),
    {
        let addr = ((bus as u32) << 16u32) | ((device as u32) << 11u32) | ((function as u32)
            << 8u32) | ((offset as u32) & 0xFC) | 0x8000_0000;
        self.entries.push((addr, value));
    }
}

/// Walk the snapshot for the dword at `addr`.
fn lookup_dword(cfg: &PciConfigSpace, addr: u32) -> (r: u32)
    ensures
        r == cfg_value(cfg@, addr),
{
    let ghost entries = cfg@;
    proof {
        assert(entries.skip(0) =~= entries);
    }
    let n = cfg.entries.len();
    let mut i: usize = 0;
    while i < n
        invariant
            i <= n,
            n == cfg.entries.len(),
            entries == cfg@,
            cfg_value(entries.skip(i as int), addr) == cfg_value(entries, addr),
        decreases n - i,
    {
        let (a, v) = cfg.entries[i];
        if a == addr {
            proof {
                assert(entries.skip(i as int)[0] == entries[i as int]);
            }
            return v;
        }
        proof {
            assert(entries.skip(i as int).skip(1) =~= entries.skip(i as int + 1));
            assert(entries.skip(i as int)[0] == entries[i as int]);
        }
        i = i + 1;
    }
    proof {
        assert(entries.skip(n as int).len() == 0);
    }
    0xFFFF_FFFF
}

/// Read a configuration dword: compose the address, then present what the
/// snapshot holds there.
pub fn read_config_dword(cfg: &PciConfigSpace, bus: u8, device: u8, function: u8, offset: u8) -> (r:
    u32)
    ensures
        r == cfg_dword(cfg@, bus, device, function, offset),
{
    let address = ((bus as u32) << 16u32) | ((device as u32) << 11u32) | ((function as u32)
        << 8u32) | ((offset as u32) & 0xFC) | 0x8000_0000;
    lookup_dword(cfg, address)
}

/// Read a configuration word, carved out of the containing dword.
pub fn read_config_word(cfg: &PciConfigSpace, bus: u8, device: u8, function: u8, offset: u8) -> (r:
    u16)
    ensures
        r == cfg_word(cfg@, bus, device, function, offset),
{
    let dword = read_config_dword(cfg, bus, device, function, offset);
    proof {
        assert(((offset as u32) & 2) * 8 <= 16) by (bit_vector);
    }
    ((dword >> (((offset as u32) & 2) * 8)) & 0xFFFF) as u16
}

/// Read a configuration byte, carved out of the containing word.
pub fn read_config_byte(cfg: &PciConfigSpace, bus: u8, device: u8, function: u8, offset: u8) -> (r:
    u8)
    ensures
        r == cfg_byte(cfg@, bus, device, function, offset),
{
    let word = read_config_word(cfg, bus, device, function, offset & 0xFE);
    proof {
        assert(((offset as u16) & 1) * 8 <= 8) by (bit_vector);
    }
    (word >> (((offset as u16) & 1) * 8)) as u8
}

/// Whether (bus, device, function) answers the presence probe: false
/// exactly when the vendor-id word at offset 0 is `0xFFFF`.
pub fn device_exists(cfg: &PciConfigSpace, bus: u8, device: u8, function: u8) -> (r: bool)
    ensures
        r == spec_device_exists(cfg@, bus, device, function),
        !r <==> cfg_word(cfg@, bus, device, function, 0) == 0xFFFF,
{
    read_config_word(cfg, bus, device, function, 0x00) != 0xFFFF
}

/// Read one device's snapshot: ids, class code and first base address
/// register.
pub fn read_device(cfg: &PciConfigSpace, bus: u8, device: u8, function: u8) -> (r: PciDevice)
    ensures
        r == spec_read_device(cfg@, bus, device, function),
{
    let vendor = read_config_word(cfg, bus, device, function, 0x00);
    let device_id = read_config_word(cfg, bus, device, function, 0x02);
    let class_info = read_config_dword(cfg, bus, device, function, 0x08);
    let class = (class_info >> 24u32) as u8;
    let subclass = (class_info >> 16u32) as u8;
    let bar0 = read_config_dword(cfg, bus, device, function, 0x10);
    PciDevice {
        bus,
        device,
        function,
        id: PciDeviceId { vendor_id: vendor, device_id },
        class,
        subclass,
        bar0,
    }
}

/// The devices of one (bus, device) slot, in function order; empty when
/// function 0 is absent.
fn scan_slot(cfg: &PciConfigSpace, bus: u8, device: u8) -> (r: Vec<PciDevice>)
    ensures
        r@ == slot_devices(cfg@, bus, device),
{
    let mut v: Vec<PciDevice> = Vec::new();
    let mut func: u8 = 0;
    while func < 8
        invariant
            func <= 8,
            v@ + funcs_from(cfg@, bus, device, func as int) == funcs_from(cfg@, bus, device, 0),
            spec_device_exists(cfg@, bus, device, 0) || (func == 0 && v@.len() == 0),
        ensures
            v@ == slot_devices(cfg@, bus, device),
        decreases 8 - func,
    {
        if !device_exists(cfg, bus, device, func) {
            if func == 0 {
                break ;
            }
        } else {
            let d = read_device(cfg, bus, device, func);
            v.push(d);
            proof {
                assert(v@ + funcs_from(cfg@, bus, device, func as int + 1) =~= funcs_from(
                    cfg@,
                    bus,
                    device,
                    0,
                ));
            }
        }
        func = func + 1;
    }
    v
}

/// Scan the entire configuration space: all 256 buses × 32 devices × 8
/// functions, in (bus, device, function) order. Absent slots contribute
/// nothing; a slot whose function 0 is absent is skipped whole. The scan
/// only reads; it is safe to invoke repeatedly.
pub fn scan_bus(cfg: &PciConfigSpace) -> (r: Vec<PciDevice>)
    ensures
        r@ == spec_scan(cfg@),
{
    let mut devices: Vec<PciDevice> = Vec::new();
    let mut idx: usize = 0;
    while idx < 8192
        invariant
            idx <= 8192,
            devices@ + scan_from(cfg@, idx as int) == spec_scan(cfg@),
        decreases 8192 - idx,
    {
        let bus = (idx / 32) as u8;
        let device = (idx % 32) as u8;
        let mut slot = scan_slot(cfg, bus, device);
        proof {
            assert(devices@ + (slot_devices(cfg@, bus, device) + scan_from(cfg@, idx as int + 1))
                =~= (devices@ + slot_devices(cfg@, bus, device)) + scan_from(cfg@, idx as int + 1));
        }
        devices.append(&mut slot);
        idx = idx + 1;
    }
    proof {
        assert(devices@ =~= spec_scan(cfg@));
    }
    devices
}

/// Find all devices with the given class and subclass, preserving scan
/// order.
pub fn find_by_class(cfg: &PciConfigSpace, class: u8, subclass: u8) -> (r: Vec<PciDevice>)
    ensures
        r@ == spec_scan(cfg@).filter(
            |d: PciDevice| d.class == class && d.subclass == subclass,
        ),
{
    let all = scan_bus(cfg);
    let ghost pred = |d: PciDevice| d.class == class && d.subclass == subclass;
    let mut r: Vec<PciDevice> = Vec::new();
    proof {
        reveal(Seq::filter);
        assert(all@.take(0) =~= Seq::<PciDevice>::empty());
    }
    let n = all.len();
    let mut i: usize = 0;
    while i < n
        invariant
            i <= n,
            n == all@.len(),
            all@ == spec_scan(cfg@),
            r@ == all@.take(i as int).filter(pred),
            pred == (|d: PciDevice| d.class == class && d.subclass == subclass),
        decreases n - i,
    {
        let d = all[i];
        if d.class == class && d.subclass == subclass {
            r.push(d);
        }
        proof {
            reveal(Seq::filter);
            assert(all@.take(i as int + 1).drop_last() =~= all@.take(i as int));
            assert(all@.take(i as int + 1).last() == all@[i as int]);
            assert(pred(all@[i as int]) == (d.class == class && d.subclass == subclass));
            assert(all@.take(i as int + 1).filter(pred) == if pred(all@[i as int]) {
                all@.take(i as int).filter(pred).push(all@[i as int])
            } else {
                all@.take(i as int).filter(pred)
            });
        }
        i = i + 1;
    }
    proof {
        assert(all@.take(n as int) =~= all@);
    }
    r
}

/// Find all audio devices (class code 0x04), preserving scan order.
pub fn find_audio_devices(cfg: &PciConfigSpace) -> (r: Vec<PciDevice>)
    ensures
        r@ == spec_scan(cfg@).filter(|d: PciDevice| d.class == 0x04),
{
    let all = scan_bus(cfg);
    let ghost pred = |d: PciDevice| d.class == 0x04;
    let mut r: Vec<PciDevice> = Vec::new();
    proof {
        reveal(Seq::filter);
        assert(all@.take(0) =~= Seq::<PciDevice>::empty());
    }
    let n = all.len();
    let mut i: usize = 0;
    while i < n
        invariant
            i <= n,
            n == all@.len(),
            all@ == spec_scan(cfg@),
            r@ == all@.take(i as int).filter(pred),
            pred == (|d: PciDevice| d.class == 0x04),
        decreases n - i,
    {
        let d = all[i];
        if d.class == 0x04 {
            r.push(d);
        }
        proof {
            reveal(Seq::filter);
            assert(all@.take(i as int + 1).drop_last() =~= all@.take(i as int));
            assert(all@.take(i as int + 1).last() == all@[i as int]);
            assert(pred(all@[i as int]) == (d.class == 0x04));
            assert(all@.take(i as int + 1).filter(pred) == if pred(all@[i as int]) {
                all@.take(i as int).filter(pred).push(all@[i as int])
            } else {
                all@.take(i as int).filter(pred)
            });
        }
        i = i + 1;
    }
    proof {
        assert(all@.take(n as int) =~= all@);
    }
    r
}

/// Law: on a configuration space where every presence probe reads back
/// `0xFFFF` — the all-ones vendor word of an absent device — the scan
/// yields no devices at all.
pub proof fn lemma_scan_all_absent_is_empty(entries: Seq<(u32, u32)>)
    requires
        forall|bus: u8, device: u8, function: u8|
            #[trigger] cfg_word(entries, bus, device, function, 0) == 0xFFFF,
    ensures
        spec_scan(entries) == Seq::<PciDevice>::empty(),
{
    lemma_scan_from_all_absent(entries, 0);
}

/// Helper for the law above: every slot suffix contributes nothing.
proof fn lemma_scan_from_all_absent(entries: Seq<(u32, u32)>, idx: int)
    requires
        forall|bus: u8, device: u8, function: u8|
            #[trigger] cfg_word(entries, bus, device, function, 0) == 0xFFFF,
        0 <= idx <= 8192,
    ensures
        scan_from(entries, idx) == Seq::<PciDevice>::empty(),
    decreases 8192 - idx,
{
    if idx < 8192 {
        assert(!spec_device_exists(entries, (idx / 32) as u8, (idx % 32) as u8, 0));
        lemma_scan_from_all_absent(entries, idx + 1);
        assert(scan_from(entries, idx) =~= Seq::<PciDevice>::empty());
    }
}

/// The empty snapshot answers every probe with all-ones, so every vendor
/// word reads `0xFFFF`.
pub proof fn lemma_empty_space_all_absent(bus: u8, device: u8, function: u8)
    ensures
        cfg_word(Seq::<(u32, u32)>::empty(), bus, device, function, 0) == 0xFFFF,
{
    assert((0xFFFF_FFFFu32 >> (((0u32) & 2) * 8)) & 0xFFFF == 0xFFFF) by (bit_vector);
}

} // verus!
