use lib::board::{
    storage_locations, DriverNumbers, Platform, PlatformDriver, StorageLocation, PRODUCT_ID,
    THRESHOLD, VENDOR_ID,
};
use lib::components::{CapacitiveTouchComponent, UsbCtapComponent};

static STRINGS: &[&str] = &["Nordic Semiconductor ASA", "OpenSK", "v1.0", "FIDO2", "Vendor HID"];

fn numbers() -> DriverNumbers {
    DriverNumbers {
        console: 0x1,
        alarm: 0x0,
        led: 0x2,
        usb_ctap: 0x20009,
        button: 0x3,
        rng: 0x40001,
        ipc: 0x10000,
        nvmc: 0x50004,
    }
}

#[test]
fn driver_lookup() {
    let p = Platform::new(numbers());
    assert_eq!(p.with_driver(0x1), Some(PlatformDriver::Console));
    assert_eq!(p.with_driver(0x0), Some(PlatformDriver::Alarm));
    assert_eq!(p.with_driver(0x3), Some(PlatformDriver::CapacitiveTouch));
    assert_eq!(p.with_driver(0x40001), Some(PlatformDriver::Rng));
    assert_eq!(p.with_driver(0x50004), Some(PlatformDriver::Nvmc));
    assert_eq!(p.with_driver(0x20009), Some(PlatformDriver::UsbCtap));
    assert_eq!(p.with_driver(0x60000), None);
}

#[test]
fn first_driver_wins_on_shared_number() {
    let mut n = numbers();
    n.nvmc = n.console;
    assert_eq!(Platform::new(n).with_driver(n.console), Some(PlatformDriver::Console));
}

#[test]
fn board_configuration() {
    assert_eq!(VENDOR_ID, 0x1915);
    assert_eq!(PRODUCT_ID, 0x521f);
    assert_eq!(THRESHOLD, 20);
    assert_eq!(lib::board::CAP_TOUCH_SCAN_MS, 100);
    assert_eq!(
        storage_locations(),
        [
            StorageLocation { address: 0xC0000, size: 0x10000 },
            StorageLocation { address: 0xD0000, size: 0x4000 },
        ]
    );
}

#[test]
fn usb_ctap_component() {
    let c = UsbCtapComponent::new(0x20009, 64, VENDOR_ID, PRODUCT_ID, STRINGS);
    assert_eq!(c.driver_num(), 0x20009);
    assert_eq!(c.max_ctrl_packet_size(), 64);
    assert_eq!(c.vendor_id(), 0x1915);
    assert_eq!(c.product_id(), 0x521f);
    assert_eq!(c.strings()[1], "OpenSK");
    let d = c.finalize();
    assert!(d.apps().is_empty());
}

#[test]
fn capacitive_touch_component() {
    let c = CapacitiveTouchComponent::new(0x60000);
    assert_eq!(c.driver_num(), 0x60000);
    let t = c.finalize();
    assert!(!t.is_touched());
}
