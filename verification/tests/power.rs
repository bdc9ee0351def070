use lib::power::{
    MainVoltage, Power, PowerEvent, PowerStep, EVENT_POFWARN, EVENT_SLEEPENTER, EVENT_SLEEPEXIT,
    EVENT_USBDETECTED, EVENT_USBPWRRDY, EVENT_USBREMOVED, GPREGRET, POWER_INTENCLR,
    POWER_INTENSET, USB_INTENCLR, USB_INTENSET,
};
use lib::registers::RegisterWrite;

fn w(address: u32, value: u32) -> PowerStep {
    PowerStep::Write(RegisterWrite { address, value })
}

#[test]
fn interrupt_with_client() {
    let mut p = Power::new();
    p.set_usb_client();
    let steps = p.handle_interrupt(1, 0, 3);
    assert_eq!(
        steps,
        vec![
            w(0x5000_5308, 0xffff_ffff),
            w(0x5003_7308, 0xffff_ffff),
            w(EVENT_USBDETECTED, 0),
            PowerStep::Notify(PowerEvent::UsbPluggedIn),
            w(EVENT_USBPWRRDY, 0),
            PowerStep::Notify(PowerEvent::UsbPowerReady),
            w(EVENT_POFWARN, 0),
            w(EVENT_SLEEPENTER, 0),
            w(EVENT_SLEEPEXIT, 0),
            w(0x5003_7304, 7),
            w(0x5000_5304, 0x64),
        ]
    );
}

#[test]
fn interrupt_without_client_clears_only() {
    let p = Power::new();
    let steps = p.handle_interrupt(0, 1, 2);
    assert_eq!(steps.len(), 8);
    assert_eq!(steps[2], w(EVENT_USBREMOVED, 0));
    assert!(steps.iter().all(|s| !matches!(s, PowerStep::Notify(_))));
}

#[test]
fn interrupt_register_writes() {
    let p = Power::new();
    assert_eq!(p.enable_usb_interrupt(2), RegisterWrite { address: USB_INTENSET, value: 2 });
    assert_eq!(p.clear_usb_interrupt(4), RegisterWrite { address: USB_INTENCLR, value: 4 });
    assert_eq!(p.enable_chip_interrupt(4), RegisterWrite { address: POWER_INTENSET, value: 4 });
    assert_eq!(p.clear_chip_interrupt(32), RegisterWrite { address: POWER_INTENCLR, value: 32 });
    assert_eq!(p.disable_all_usb_interrupts().value, 0xffff_ffff);
    assert_eq!(p.disable_all_chip_interrupts().address, POWER_INTENCLR);
    assert_eq!(p.enable_usb_interrupts().value, 0b111);
    assert_eq!(p.enable_chip_interrups().value, (1 << 2) | (1 << 5) | (1 << 6));
}

#[test]
fn status_registers() {
    let p = Power::new();
    assert_eq!(p.get_main_supply_status(0), MainVoltage::Normal);
    assert_eq!(p.get_main_supply_status(0xfffe), MainVoltage::Normal);
    assert_eq!(p.get_main_supply_status(1), MainVoltage::High);
    assert_eq!(MainVoltage::High.value(), 1);
    assert!(p.is_vbus_present(1));
    assert!(!p.is_vbus_present(2));
    assert!(p.is_usb_power_ready(2));
    assert!(!p.is_usb_power_ready(1));
}

#[test]
fn retention_register() {
    let p = Power::new();
    assert_eq!(p.get_gpregret(0x1234_56ab), 0xab);
    assert_eq!(p.set_gpregret(0x57), RegisterWrite { address: GPREGRET, value: 0x57 });
    assert_eq!(GPREGRET, 0x5000_551C);
}

#[test]
fn retention_round_trip() {
    let p = Power::new();
    for v in [0u8, 1, 0x7f, 0x80, 0xff] {
        let w = p.set_gpregret(v);
        assert_eq!(p.get_gpregret(w.value), v);
    }
}

#[test]
fn piecewise_handling_matches_whole() {
    let mut p = Power::new();
    p.set_usb_client();
    let mut steps: Vec<PowerStep> = p.interrupt_prologue().iter().map(|w| PowerStep::Write(*w)).collect();
    steps.extend(p.usb_event(PowerEvent::UsbPluggedIn, 0));
    steps.extend(p.usb_event(PowerEvent::UsbPluggedOut, 1));
    steps.extend(p.usb_event(PowerEvent::UsbPowerReady, 0));
    steps.extend(p.interrupt_epilogue().iter().map(|w| PowerStep::Write(*w)));
    assert_eq!(steps, p.handle_interrupt(0, 1, 0));
    assert_eq!(
        p.usb_event(PowerEvent::UsbPluggedOut, 1),
        vec![w(EVENT_USBREMOVED, 0), PowerStep::Notify(PowerEvent::UsbPluggedOut)]
    );
}
