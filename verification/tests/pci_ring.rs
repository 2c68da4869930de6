use orbita::pci::{PciConfigSpace, PciDeviceId, device_exists, find_audio_devices, find_by_class,
    read_config_byte, read_config_dword, read_config_word, scan_bus};
use orbita::ring::advance_cursor;

#[test]
fn test_id() {
    let id = PciDeviceId { vendor_id: 0x8086, device_id: 0x1234 };
    assert_eq!(id.vendor_id, 0x8086);
    assert_eq!(id.device_id, 0x1234);
}

#[test]
fn cursor_stays_in_ring() {
    // k advances from any start stay inside [0, capacity) and land on
    // (start + k) % capacity
    let capacity: usize = 7;
    let mut cursor: usize = 5;
    for k in 1..=20usize {
        cursor = advance_cursor(cursor, capacity);
        assert!(cursor < capacity);
        assert_eq!(cursor, (5 + k) % capacity);
    }
    assert_eq!(advance_cursor(15, 16), 0);
}

#[test]
fn empty_space_has_no_devices() {
    let cfg = PciConfigSpace::new();
    assert!(!device_exists(&cfg, 0, 0, 0));
    assert_eq!(read_config_word(&cfg, 0, 0, 0, 0), 0xFFFF);
    assert_eq!(scan_bus(&cfg).len(), 0);
}

#[test]
fn dword_carving() {
    let mut cfg = PciConfigSpace::new();
    // vendor 0x8086, device 0x100E at offset 0 of bus 0 dev 2 func 0
    cfg.set(0, 2, 0, 0x00, 0x100E_8086);
    assert_eq!(read_config_dword(&cfg, 0, 2, 0, 0x00), 0x100E_8086);
    assert_eq!(read_config_word(&cfg, 0, 2, 0, 0x00), 0x8086);
    assert_eq!(read_config_word(&cfg, 0, 2, 0, 0x02), 0x100E);
    assert_eq!(read_config_byte(&cfg, 0, 2, 0, 0x00), 0x86);
    assert_eq!(read_config_byte(&cfg, 0, 2, 0, 0x01), 0x80);
    assert_eq!(read_config_byte(&cfg, 0, 2, 0, 0x03), 0x10);
    assert!(device_exists(&cfg, 0, 2, 0));
    assert!(!device_exists(&cfg, 0, 3, 0));
}

fn put_device(cfg: &mut PciConfigSpace, bus: u8, device: u8, vendor: u16, class: u8, subclass: u8) {
    cfg.set(bus, device, 0, 0x00, vendor as u32);
    cfg.set(bus, device, 0, 0x08, ((class as u32) << 24) | ((subclass as u32) << 16));
    cfg.set(bus, device, 0, 0x10, 0xFEC0_0000);
}

#[test]
fn scan_finds_devices_in_order() {
    let mut cfg = PciConfigSpace::new();
    put_device(&mut cfg, 0, 3, 0x8086, 0x02, 0x00);
    put_device(&mut cfg, 1, 0, 0x10EC, 0x04, 0x01);
    let devices = scan_bus(&cfg);
    assert_eq!(devices.len(), 2);
    assert_eq!(devices[0].bus, 0);
    assert_eq!(devices[0].device, 3);
    assert_eq!(devices[0].id.vendor_id, 0x8086);
    assert_eq!(devices[0].class, 0x02);
    assert_eq!(devices[0].bar0, 0xFEC0_0000);
    assert_eq!(devices[1].bus, 1);
    assert_eq!(devices[1].id.vendor_id, 0x10EC);
}

#[test]
fn function_zero_shortcut_skips_higher_functions() {
    let mut cfg = PciConfigSpace::new();
    // function 3 is populated, but function 0 is absent: the slot is
    // skipped whole, by design
    cfg.set(0, 5, 3, 0x00, 0x1234);
    assert_eq!(scan_bus(&cfg).len(), 0);
}

#[test]
fn find_by_class_keeps_scan_order() {
    // devices with classes [0x04, 0x01, 0x04] in scan order: the filter
    // returns exactly the first and third, in that order
    let mut cfg = PciConfigSpace::new();
    put_device(&mut cfg, 0, 0, 0x1111, 0x04, 0x01);
    put_device(&mut cfg, 0, 1, 0x2222, 0x01, 0x01);
    put_device(&mut cfg, 0, 2, 0x3333, 0x04, 0x01);
    let matches = find_by_class(&cfg, 0x04, 0x01);
    assert_eq!(matches.len(), 2);
    assert_eq!(matches[0].id.vendor_id, 0x1111);
    assert_eq!(matches[1].id.vendor_id, 0x3333);
    let audio = find_audio_devices(&cfg);
    assert_eq!(audio.len(), 2);
    assert_eq!(audio[0].id.vendor_id, 0x1111);
    assert_eq!(audio[1].id.vendor_id, 0x3333);
    assert_eq!(find_by_class(&cfg, 0x01, 0x01).len(), 1);
}
