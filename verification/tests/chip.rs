use lib::approtect::{Approtect, APPROTECT_DISABLE, DISABLE_CUSTOM, SECUREAPPROTECT_DISABLE};
use lib::interrupt_service::{InterruptRoute, Nrf5340DefaultPeripherals, PeripheralInterrupts};
use lib::registers::RegisterWrite;
use lib::uicr::{Regulator0Output, Uicr};

#[test]
fn approtect_disable_writes() {
    let a = Approtect::new();
    assert_eq!(
        a.sw_disable_approtect(),
        [
            RegisterWrite { address: 0x5000_6544, value: 0x6969_6969 },
            RegisterWrite { address: 0x5000_654C, value: 0x6969_6969 },
        ]
    );
    assert_eq!(APPROTECT_DISABLE + 8, SECUREAPPROTECT_DISABLE);
    assert_eq!(DISABLE_CUSTOM, 0x6969_6969);
}

#[test]
fn uicr_protection_status() {
    let u = Uicr::new();
    assert!(!u.is_ap_protect_enabled(0));
    assert!(u.is_ap_protect_enabled(0xffff_ffff));
    assert!(u.is_ap_protect_enabled(1));
}

#[test]
fn regulator_from_register() {
    assert_eq!(Regulator0Output::from(0), Regulator0Output::V1_8);
    assert_eq!(Regulator0Output::from(3), Regulator0Output::V2_7);
    assert_eq!(Regulator0Output::from(5), Regulator0Output::V3_3);
    assert_eq!(Regulator0Output::from(6), Regulator0Output::DEFAULT);
    assert_eq!(Regulator0Output::from(7), Regulator0Output::DEFAULT);
    assert_eq!(Regulator0Output::from(0xfff8 | 4), Regulator0Output::V3_0);
    for code in 0u32..8 {
        let r = Regulator0Output::from(code);
        if code != 6 {
            assert_eq!(r.value(), code);
        }
    }
}

#[test]
fn interrupt_routes() {
    let p = Nrf5340DefaultPeripherals::new(PeripheralInterrupts { usbd: 54, gpiote: 13, radio: 8 });
    assert_eq!(p.service_interrupt(54, true, true), InterruptRoute::Usbd);
    assert_eq!(p.service_interrupt(13, false, false), InterruptRoute::Gpiote);
    assert_eq!(p.service_interrupt(8, false, false), InterruptRoute::RadioIdle);
    assert_eq!(p.service_interrupt(8, true, false), InterruptRoute::Ieee802154Radio);
    assert_eq!(p.service_interrupt(8, false, true), InterruptRoute::BleRadio);
    assert_eq!(p.service_interrupt(8, true, true), InterruptRoute::RadioConflict);
    assert_eq!(p.service_interrupt(9, false, false), InterruptRoute::Delegate);
    assert!(Nrf5340DefaultPeripherals::serviced(InterruptRoute::RadioIdle, false));
    assert!(!Nrf5340DefaultPeripherals::serviced(InterruptRoute::Delegate, false));
    assert!(Nrf5340DefaultPeripherals::serviced(InterruptRoute::Delegate, true));
}

#[test]
fn uicr_disable_write() {
    let u = Uicr::new();
    assert_eq!(
        u.disable_ap_protect(),
        RegisterWrite { address: 0x1000_1200, value: 0x6969_6969 }
    );
}
