use lib::ficr::{AddressType, Ficr, FicrRegisters, Flash, Package, Part, Ram, Variant};

fn regs() -> FicrRegisters {
    FicrRegisters {
        deviceid0: 0x0403_0201,
        deviceid1: 0x0807_0605,
        deviceaddrtype: 1,
        deviceaddr0: 0x52cd_939e,
        deviceaddr1: 0xffff_46db,
        info_part: 0x5340,
        info_variant: 0x4141_4430,
        info_package: 0x2006,
        info_ram: 0x100,
        info_flash: 0x400,
    }
}

#[test]
fn identifier_is_little_endian() {
    let f = Ficr::from_registers(regs());
    let id = f.id();
    assert_eq!(id, [1, 2, 3, 4, 5, 6, 7, 8]);
    assert_eq!(u64::from_le_bytes(id), 0x0807_0605_0403_0201);
}

#[test]
fn address_bytes() {
    let f = Ficr::from_registers(regs());
    assert_eq!(f.address(), [0x9e, 0x93, 0xcd, 0x52, 0xdb, 0x46]);
}

#[test]
fn address_text() {
    let f = Ficr::from_registers(regs());
    let text = f.address_str();
    assert_eq!(core::str::from_utf8(&text).unwrap(), "46:db:52:cd:93:9e");
}

#[test]
fn address_text_of_zero_and_max() {
    let mut r = regs();
    r.deviceaddr0 = 0;
    r.deviceaddr1 = 0;
    assert_eq!(&Ficr::from_registers(r).address_str(), b"00:00:00:00:00:00");
    r.deviceaddr0 = u32::MAX;
    r.deviceaddr1 = u32::MAX;
    assert_eq!(&Ficr::from_registers(r).address_str(), b"ff:ff:ff:ff:ff:ff");
}

#[test]
fn address_type() {
    let mut r = regs();
    assert_eq!(Ficr::from_registers(r).address_type(), AddressType::Random);
    r.deviceaddrtype = 0xfffe;
    assert_eq!(Ficr::from_registers(r).address_type(), AddressType::Public);
    assert_eq!(AddressType::Random.value(), 1);
}

#[test]
fn decoded_information() {
    let f = Ficr::from_registers(regs());
    assert_eq!(f.part(), Part::N5340);
    assert_eq!(f.variant(), Variant::AAD0);
    assert_eq!(f.package(), Package::QK);
    assert_eq!(f.ram(), Ram::K256);
    assert_eq!(f.flash(), Flash::K1024);
    assert!(f.has_updated_approtect_logic());
}

#[test]
fn unknown_codes_are_unspecified() {
    let mut r = regs();
    r.info_part = 0x5341;
    r.info_variant = 0x4343_4141; // not a documented variant code
    r.info_package = 0x2000;
    r.info_ram = 0x30;
    r.info_flash = 0x1000;
    let f = Ficr::from_registers(r);
    assert_eq!(f.part(), Part::Unspecified);
    assert_eq!(f.variant(), Variant::Unspecified);
    assert_eq!(f.package(), Package::Unspecified);
    assert_eq!(f.ram(), Ram::Unspecified);
    assert_eq!(f.flash(), Flash::Unspecified);
}

#[test]
fn other_variants() {
    let mut r = regs();
    for (code, v) in [
        (0x4141_4230, Variant::AAB0),
        (0x4144_4130, Variant::ADA0),
        (0x4144_4230, Variant::ADB0),
        (0x514b_4141, Variant::QKAA),
        (0x434c_4141, Variant::CLAA),
    ] {
        r.info_variant = code;
        assert_eq!(Ficr::from_registers(r).variant(), v);
        assert_eq!(v.value(), code);
    }
}
