use orbita::drivers::template_driver::{DriverError, TemplateDriver};
use orbita::regs::{PortWidth, PortWrite};
use orbita::sound::ac97::{AC97Driver, SoundError};
use orbita::sound::hda::{HdaDriver, HdaError};
use orbita::storage::ahci::{AhciController, AhciError, HbaMem};
use orbita::storage::ata::{AtaController, AtaError};
use orbita::usb::hid::{HidDevice, USBHID};
use orbita::usb::mass_storage::USBMassStorage;
use orbita::usb::uhci::UHCIDriver;
use orbita::usb::{self, UsbError};

#[test]
fn ac97_test_new_driver() {
    let driver = AC97Driver::new(0xE000, 0xE100);
    assert_eq!(driver.nam_base(), 0xE000);
    assert_eq!(driver.nabm_base(), 0xE100);
    assert!(!driver.is_initialized());
}

#[test]
fn ac97_init_sets_volumes() {
    let mut driver = AC97Driver::new(0xE000, 0xE100);
    assert_eq!(driver.init(), Ok(()));
    assert!(driver.is_initialized());
    let log = driver.ports().write_log();
    // reset, master volume, PCM volume; no variable-rate writes since
    // the codec advertises none
    assert_eq!(log.len(), 3);
    assert_eq!(log[0], PortWrite { port: 0xE000, width: PortWidth::Word, value: 0 });
    assert_eq!(log[1], PortWrite { port: 0xE002, width: PortWidth::Word, value: 0x0000 });
    assert_eq!(log[2], PortWrite { port: 0xE018, width: PortWidth::Word, value: 0x0808 });
}

#[test]
fn ac97_init_times_out_when_codec_never_ready() {
    let mut driver = AC97Driver::new(0xE000, 0xE100);
    driver.device_set_port16(0xE000, 0xFFFF);
    assert_eq!(driver.init(), Err(SoundError::CodecTimeout));
    assert!(!driver.is_initialized());
}

#[test]
fn ac97_variable_rate_codec_gets_48khz() {
    let mut driver = AC97Driver::new(0xE000, 0xE100);
    driver.device_set_port16(0xE000 + 0x28, 0x0001);
    assert_eq!(driver.init(), Ok(()));
    let log = driver.ports().write_log();
    assert_eq!(log.len(), 5);
    assert_eq!(log[3], PortWrite { port: 0xE02A, width: PortWidth::Word, value: 0x0001 });
    assert_eq!(log[4], PortWrite { port: 0xE02C, width: PortWidth::Word, value: 48000 });
}

#[test]
fn ac97_sample_rate_range() {
    let mut driver = AC97Driver::new(0xE000, 0xE100);
    assert_eq!(driver.set_sample_rate(50000), Err(SoundError::InvalidSampleRate));
    assert_eq!(driver.set_sample_rate(7999), Err(SoundError::InvalidSampleRate));
    assert_eq!(driver.set_sample_rate(44100), Ok(()));
    let log = driver.ports().write_log();
    assert_eq!(log[log.len() - 1], PortWrite { port: 0xE02C, width: PortWidth::Word, value: 44100 });
}

#[test]
fn ac97_play_needs_init() {
    let mut driver = AC97Driver::new(0xE000, 0xE100);
    assert_eq!(driver.play_audio(&[0, 1, 2]), Err(SoundError::NotInitialized));
    driver.init().unwrap();
    assert_eq!(driver.play_audio(&[0, 1, 2]), Ok(()));
    let log = driver.ports().write_log();
    assert_eq!(log[log.len() - 1], PortWrite { port: 0xE11B, width: PortWidth::Byte, value: 0x01 });
    assert_eq!(driver.stop(), Ok(()));
    let log = driver.ports().write_log();
    assert_eq!(log[log.len() - 1], PortWrite { port: 0xE11B, width: PortWidth::Byte, value: 0x00 });
}

#[test]
fn test_new() {
    let hda = HdaDriver::new(0xF0000000);
    assert_eq!(hda.base, 0xF0000000);
    assert!(!hda.codecs().iter().any(|c| *c));
}

#[test]
fn hda_init_times_out_without_ready_bit() {
    let mut hda = HdaDriver::new(0xF0000000);
    assert_eq!(hda.init(), Err(HdaError::Timeout));
}

#[test]
fn hda_init_discovers_codecs() {
    let mut hda = HdaDriver::new(0xF0000000);
    // base 0xF0000000 truncates into the port window at 0: global
    // control sits at port 8, codec presence at 0x60 + 4 * slot
    hda.device_set_port32(0x08, 1);
    hda.device_set_port32(0x60 + 8, 1);
    assert_eq!(hda.init(), Ok(()));
    let codecs = hda.codecs();
    assert!(codecs[2]);
    assert!(!codecs[0]);
    assert_eq!(codecs.iter().filter(|c| **c).count(), 1);
}

#[test]
fn hda_stream_index_checked() {
    let mut hda = HdaDriver::new(0xF0000000);
    assert_eq!(hda.setup_stream(15, 0x1000, 256), Err(HdaError::InvalidStream));
    assert_eq!(hda.setup_stream(1, 0x1000, 256), Ok(()));
    let log = hda.ports().write_log();
    assert_eq!(log[log.len() - 2], PortWrite { port: 0xB8, width: PortWidth::Dword, value: 0x1000 });
    assert_eq!(log[log.len() - 1], PortWrite { port: 0xBC, width: PortWidth::Dword, value: 256 });
}

#[test]
fn test_port_bitmap() {
    let mut mem = HbaMem::new();
    mem.ports_implemented = 0x5;
    let controller = AhciController::new(mem);
    assert_eq!(controller.discover_ports(), 0x5);
}

#[test]
fn ahci_init_sets_enable_bit() {
    let mut controller = AhciController::new(HbaMem::new());
    controller.init();
    assert_eq!(controller.global_host_control(), 0x8000_0000);
    let mut buffer = vec![0u8; 512];
    assert_eq!(controller.read(0, 0, &mut buffer), Ok(()));
    assert_eq!(controller.write(0, 0, &buffer), Ok(()));
    assert_eq!(controller.read_ncq(0, 1, 0, &mut buffer), Ok(()));
    assert_eq!(AhciError::NoPort.as_str(), "Port not available");
}

#[test]
fn test_new_controller() {
    let ctrl = AtaController::new(0x1F0, 0x3F6);
    assert_eq!(ctrl.io_base, 0x1F0);
    assert_eq!(ctrl.control_base, 0x3F6);
}

#[test]
fn ata_detect_reads_status() {
    let mut ctrl = AtaController::new(0x1F0, 0x3F6);
    // status reads zero: not busy, nothing present
    assert_eq!(ctrl.detect(), Ok(false));
    ctrl.device_set_port8(0x1F7, 0x40);
    assert_eq!(ctrl.detect(), Ok(true));
    ctrl.device_set_port8(0x1F7, 0x80);
    assert_eq!(ctrl.detect(), Err(AtaError::Timeout));
}

#[test]
fn ata_sector_buffers_are_checked() {
    let mut ctrl = AtaController::new(0x1F0, 0x3F6);
    let mut short = vec![0u8; 511];
    assert_eq!(ctrl.read_sector(5, &mut short), Err(AtaError::BufferTooSmall));
    assert_eq!(ctrl.write_sector(5, &short), Err(AtaError::BufferTooSmall));
    assert_eq!(ctrl.ports().write_log().len(), 0);
}

#[test]
fn ata_read_sector_pulls_data_port() {
    let mut ctrl = AtaController::new(0x1F0, 0x3F6);
    ctrl.device_set_port8(0x1F0, 0xAB);
    ctrl.device_set_port8(0x1F1, 0xCD);
    let mut buffer = vec![0u8; 512];
    assert_eq!(ctrl.read_sector(3, &mut buffer), Ok(()));
    assert_eq!(buffer[0], 0xAB);
    assert_eq!(buffer[1], 0xCD);
    assert_eq!(buffer[510], 0xAB);
    assert_eq!(buffer[511], 0xCD);
    let log = ctrl.ports().write_log();
    assert_eq!(log.len(), 6);
    assert_eq!(log[5], PortWrite { port: 0x1F7, width: PortWidth::Byte, value: 0x20 });
}

#[test]
fn ata_write_sector_pushes_words() {
    let mut ctrl = AtaController::new(0x1F0, 0x3F6);
    let mut sector = vec![0u8; 512];
    sector[0] = 0x34;
    sector[1] = 0x12;
    assert_eq!(ctrl.write_sector(9, &sector), Ok(()));
    let log = ctrl.ports().write_log();
    assert_eq!(log.len(), 6 + 256);
    assert_eq!(log[1], PortWrite { port: 0x1F3, width: PortWidth::Byte, value: 9 });
    assert_eq!(log[5], PortWrite { port: 0x1F7, width: PortWidth::Byte, value: 0x30 });
    assert_eq!(log[6], PortWrite { port: 0x1F0, width: PortWidth::Word, value: 0x1234 });
    assert_eq!(log[7], PortWrite { port: 0x1F0, width: PortWidth::Word, value: 0 });
    // DMA paths are still skeletons
    let mut buffer = vec![0u8; 512];
    ctrl.setup_dma(0xC000);
    assert_eq!(ctrl.read_dma(0, 1, &mut buffer), Ok(()));
    assert_eq!(ctrl.write_dma(0, 1, &buffer), Ok(()));
}

#[test]
fn template_driver_test_new_driver() {
    let driver = TemplateDriver::new(0x3F8);
    assert_eq!(driver.base_port(), 0x3F8);
    assert!(!driver.is_initialized());
}

#[test]
fn template_driver_detects_signature() {
    let mut driver = TemplateDriver::new(0x3F8);
    assert_eq!(driver.init(), Err(DriverError::DeviceNotFound));
    assert!(!driver.is_initialized());
    assert_eq!(driver.read(), Err(DriverError::NotInitialized));
    assert_eq!(driver.write(7), Err(DriverError::NotInitialized));

    driver.device_set_port8(0x3F9, 0xFF);
    assert_eq!(driver.init(), Ok(()));
    assert!(driver.is_initialized());
    driver.device_set_port8(0x3F8, 0x42);
    assert_eq!(driver.read(), Ok(0x42));
    assert_eq!(driver.write(0x55), Ok(()));
    let log = driver.ports().write_log();
    assert_eq!(log[log.len() - 1], PortWrite { port: 0x3F8, width: PortWidth::Byte, value: 0x55 });
    assert_eq!(DriverError::Timeout.as_str(), "Operation timed out");
}

#[test]
fn usb_skeletons_report_their_state() {
    let mut uhci = UHCIDriver::new(0xC400);
    assert_eq!(uhci.init(), Ok(()));
    let mut ohci = usb::ohci::OHCIDriver::new(0xFE00_0000);
    assert_eq!(ohci.init(), Ok(()));
    let mut ehci = usb::ehci::EHCIDriver::new(0xFE10_0000);
    assert_eq!(ehci.init(), Ok(()));
    let mut xhci = usb::xhci::XHCIDriver::new(0xFE20_0000);
    assert_eq!(xhci.init(), Ok(()));

    let mut hid = USBHID::new(3, HidDevice::Keyboard);
    assert_eq!(hid.address, 3);
    assert_eq!(hid.device_type, HidDevice::Keyboard);
    assert_eq!(hid.init(), Ok(()));
    let mut report = vec![0u8; 8];
    assert_eq!(hid.poll(&mut report), Err(UsbError::TransferError));

    let mut disk = USBMassStorage::new(4);
    assert_eq!(disk.address, 4);
    assert_eq!(disk.init(), Ok(()));
    let mut block = vec![0u8; 512];
    assert_eq!(disk.read_block(0, &mut block), Err(UsbError::TransferError));
    assert_eq!(block, vec![0u8; 512]);
}
