use orbita::drivers::e1000::{E1000Driver, NetError};
use orbita::drivers::rtl8139::NetError as RtlNetError;
use orbita::drivers::rtl8139::RTL8139Driver;
use orbita::regs::{MmioWrite, PortWidth, PortWrite};

#[test]
fn e1000_test_new_driver() {
    let driver = E1000Driver::new(0xFEC00000);
    assert_eq!(driver.mmio_base(), 0xFEC00000);
    assert!(!driver.is_initialized());
}

#[test]
fn rtl8139_test_new_driver() {
    let driver = RTL8139Driver::new(0xC000, 10);
    assert_eq!(driver.io_base(), 0xC000);
    assert_eq!(driver.irq(), 10);
    assert!(!driver.is_initialized());
}

#[test]
fn e1000_send_before_init_changes_nothing() {
    // Scenario: constructed at 0xFEC00000, the driver records that base,
    // starts uninitialized, and refuses to send.
    let mut driver = E1000Driver::new(0xFEC00000);
    assert_eq!(driver.mmio_base(), 0xFEC00000);
    assert!(!driver.is_initialized());
    let r = driver.send_packet(&[1, 2, 3]);
    assert_eq!(r, Err(NetError::NotInitialized));
    assert_eq!(driver.tx_cursor(), 0);
    assert_eq!(driver.registers().write_log().len(), 0);
}

#[test]
fn e1000_init_programs_rings_and_enables() {
    let mut driver = E1000Driver::new(0xFEC00000);
    driver.init();
    assert!(driver.is_initialized());
    let log = driver.registers().write_log();
    assert_eq!(log.len(), 14);
    // reset, then ring programming, then enables
    assert_eq!(log[0], MmioWrite { offset: 0x0000, value: 0x04000000 });
    assert_eq!(log[1], MmioWrite { offset: 0x0000, value: 0 });
    assert_eq!(log[6], MmioWrite { offset: 0x3818, value: 0 });
    assert_eq!(log[11], MmioWrite { offset: 0x2818, value: 15 });
    assert_eq!(log[12], MmioWrite { offset: 0x0400, value: 0x0000000C });
    assert_eq!(log[13], MmioWrite { offset: 0x0100, value: 0x00000002 });
}

#[test]
fn e1000_oversized_payload_mutates_nothing() {
    let mut driver = E1000Driver::new(0xFEC00000);
    driver.init();
    let log_len = driver.registers().write_log().len();
    let big = vec![0u8; 2049];
    let r = driver.send_packet(&big);
    assert_eq!(r, Err(NetError::BufferTooSmall));
    assert_eq!(driver.tx_cursor(), 0);
    assert_eq!(driver.registers().write_log().len(), log_len);
}

#[test]
fn e1000_send_rings_doorbell_and_advances() {
    let mut driver = E1000Driver::new(0xFEC00000);
    driver.init();
    let r = driver.send_packet(&[0xAA, 0xBB]);
    assert_eq!(r, Ok(()));
    assert_eq!(driver.tx_cursor(), 1);
    let log = driver.registers().write_log();
    assert_eq!(log[log.len() - 1], MmioWrite { offset: 0x3818, value: 1 });
}

#[test]
fn e1000_receive_without_done_bit_fails_no_packet() {
    let mut driver = E1000Driver::new(0xFEC00000);
    driver.init();
    let mut buffer = vec![0u8; 2048];
    let r = driver.receive_packet(&mut buffer);
    assert_eq!(r, Err(NetError::NoPacket));
    assert_eq!(driver.rx_cursor(), 0);
}

#[test]
fn e1000_receive_buffer_too_small_keeps_descriptor() {
    let mut driver = E1000Driver::new(0xFEC00000);
    driver.init();
    driver.device_complete_rx(0, &[7u8; 100]);
    let mut small = vec![0u8; 50];
    assert_eq!(driver.receive_packet(&mut small), Err(NetError::BufferTooSmall));
    assert_eq!(driver.rx_cursor(), 0);
    // a retry with a larger buffer still collects the frame
    let mut big = vec![0u8; 200];
    assert_eq!(driver.receive_packet(&mut big), Ok(100));
    assert_eq!(&big[..100], &[7u8; 100][..]);
    assert_eq!(driver.rx_cursor(), 1);
}

#[test]
fn e1000_loopback_returns_payloads_in_order() {
    // Loopback: send N frames, let the double complete the N receive
    // slots with the same bytes, and N receives return them in order.
    let mut driver = E1000Driver::new(0xFEC00000);
    driver.init();
    let payloads: [&[u8]; 3] = [&[1, 2, 3], &[4, 5], &[6, 7, 8, 9]];
    for p in payloads.iter() {
        assert_eq!(driver.send_packet(p), Ok(()));
    }
    for (i, p) in payloads.iter().enumerate() {
        driver.device_complete_rx(i, p);
    }
    for p in payloads.iter() {
        let mut buffer = vec![0u8; 2048];
        let n = driver.receive_packet(&mut buffer).expect("frame pending");
        assert_eq!(&buffer[..n], *p);
    }
    assert_eq!(driver.rx_cursor(), 3);
}

#[test]
fn e1000_interrupt_acknowledges_cause() {
    let mut driver = E1000Driver::new(0xFEC00000);
    driver.init();
    driver.device_set_register(0x000C, 0xABCD);
    driver.handle_interrupt();
    let log = driver.registers().write_log();
    assert_eq!(log[log.len() - 1], MmioWrite { offset: 0x000C, value: 0xABCD });
}

#[test]
fn rtl8139_init_issues_reset_and_enables() {
    let mut driver = RTL8139Driver::new(0xC000, 10);
    assert_eq!(driver.init(), Ok(()));
    assert!(driver.is_initialized());
    let log = driver.ports().write_log();
    assert_eq!(log.len(), 4);
    assert_eq!(log[0], PortWrite { port: 0xC037, width: PortWidth::Byte, value: 0x10 });
    assert_eq!(log[1], PortWrite { port: 0xC030, width: PortWidth::Dword, value: 0x0040_0000 });
    assert_eq!(log[2], PortWrite { port: 0xC037, width: PortWidth::Byte, value: 0x0C });
    assert_eq!(log[3], PortWrite { port: 0xC03C, width: PortWidth::Word, value: 0x0005 });
}

#[test]
fn rtl8139_send_before_init_fails() {
    let mut driver = RTL8139Driver::new(0xC000, 10);
    assert_eq!(driver.send_packet(&[1]), Err(RtlNetError::NotInitialized));
    assert_eq!(driver.tx_cursor(), 0);
    assert_eq!(driver.ports().write_log().len(), 0);
}

#[test]
fn rtl8139_send_cycles_four_slots() {
    let mut driver = RTL8139Driver::new(0xC000, 10);
    driver.init().unwrap();
    for _ in 0..5 {
        assert_eq!(driver.send_packet(&[1, 2, 3, 4]), Ok(()));
    }
    // four slots round-robin: the fifth send reuses slot 0
    assert_eq!(driver.tx_cursor(), 1);
    let log = driver.ports().write_log();
    // each send writes the slot's address then its length
    assert_eq!(log[4], PortWrite { port: 0xC020, width: PortWidth::Dword, value: 0x0050_0000 });
    assert_eq!(log[5], PortWrite { port: 0xC010, width: PortWidth::Dword, value: 4 });
    assert_eq!(log[6], PortWrite { port: 0xC024, width: PortWidth::Dword, value: 0x0050_0000 + 1792 });
}

#[test]
fn rtl8139_oversized_payload_fails() {
    let mut driver = RTL8139Driver::new(0xC000, 10);
    driver.init().unwrap();
    let big = vec![0u8; 1793];
    assert_eq!(driver.send_packet(&big), Err(RtlNetError::BufferTooSmall));
    assert_eq!(driver.tx_cursor(), 0);
}

#[test]
fn rtl8139_length_report_larger_than_buffer_fails() {
    // Scenario: the length port reports 1600 while the caller's buffer
    // holds 1500 bytes; the read cursor must not move.
    let mut driver = RTL8139Driver::new(0xC000, 10);
    driver.init().unwrap();
    driver.device_set_port16(0xC000 + 0x1E, 1600);
    let mut buffer = vec![0u8; 1500];
    assert_eq!(driver.receive_packet(&mut buffer), Err(RtlNetError::BufferTooSmall));
    assert_eq!(driver.rx_cursor(), 0);
}

#[test]
fn rtl8139_receive_reads_frame_and_skips_header() {
    let mut driver = RTL8139Driver::new(0xC000, 10);
    driver.init().unwrap();
    driver.device_set_port16(0xC000 + 0x1E, 5);
    driver.device_write_rx(0, &[10, 20, 30, 40, 50]);
    let mut buffer = vec![0u8; 1500];
    assert_eq!(driver.receive_packet(&mut buffer), Ok(5));
    assert_eq!(&buffer[..5], &[10, 20, 30, 40, 50]);
    // the cursor skips the frame and its 4-byte header
    assert_eq!(driver.rx_cursor(), 9);
}

#[test]
fn rtl8139_interrupt_acknowledges_status() {
    let mut driver = RTL8139Driver::new(0xC000, 10);
    driver.init().unwrap();
    driver.device_set_port16(0xC000 + 0x3E, 0x0005);
    driver.handle_interrupt();
    let log = driver.ports().write_log();
    assert_eq!(log[log.len() - 1], PortWrite { port: 0xC03E, width: PortWidth::Word, value: 0x0005 });
}

#[test]
fn net_error_messages() {
    assert_eq!(NetError::NotInitialized.as_str(), "Driver not initialized");
    assert_eq!(NetError::BufferTooSmall.as_str(), "Buffer too small");
    assert_eq!(NetError::NoPacket.as_str(), "No packet available");
    assert_eq!(RtlNetError::NotInitialized.as_str(), "Driver not initialized");
}
