//! Factory information configuration registers (FICR).
//!
//! These registers are programmed in the factory and cannot be erased: they
//! hold chip-specific information such as the device identifier and address
//! and the part, variant, package, RAM and flash of the chip. A [`Ficr`] is
//! built from the register values as read, and decodes them.

use vstd::prelude::*;

verus! {

/// Base address of the FICR registers.
pub const FICR_BASE: u32 = 0x1000_0000;
/// Code memory page size.
pub const CODEPAGESIZE: u32 = 0x1000_0010;
/// Code memory size, in pages.
pub const CODESIZE: u32 = 0x1000_0014;
/// Low 32 bits of the 64-bit device identifier.
pub const DEVICEID0: u32 = 0x1000_0060;
/// High 32 bits of the 64-bit device identifier.
pub const DEVICEID1: u32 = 0x1000_0064;
/// Device address type.
pub const DEVICEADDRTYPE: u32 = 0x1000_00A0;
/// Low 32 bits of the 48-bit device address.
pub const DEVICEADDR0: u32 = 0x1000_00A4;
/// High 16 bits of the 48-bit device address.
pub const DEVICEADDR1: u32 = 0x1000_00A8;
/// Part code.
pub const INFO_PART: u32 = 0x1000_0100;
/// Part variant, hardware version and production configuration.
pub const INFO_VARIANT: u32 = 0x1000_0104;
/// Package option.
pub const INFO_PACKAGE: u32 = 0x1000_0108;
/// RAM variant.
pub const INFO_RAM: u32 = 0x1000_010C;
/// Flash variant.
pub const INFO_FLASH: u32 = 0x1000_0110;

/// Part variant, hardware version and production configuration.
#[derive(Clone, Copy, Debug, PartialEq, Eq, Structural)]
pub enum Variant {
    AAB0,
    ADA0,
    ADB0,
    AAD0,
    QKAA,
    CLAA,
    Unspecified,
}

/// Part code.
#[derive(Clone, Copy, Debug, PartialEq, Eq, Structural)]
pub enum Part {
    N5340,
    Unspecified,
}

/// Package option.
#[derive(Clone, Copy, Debug, PartialEq, Eq, Structural)]
pub enum Package {
    /// QFN-94 package (QKAA variant).
    QK,
    /// WLCSP package (CLAA variant).
    CL,
    Unspecified,
}

/// RAM size.
#[derive(Clone, Copy, Debug, PartialEq, Eq, Structural)]
pub enum Ram {
    K16,
    K32,
    K64,
    K128,
    K256,
    Unspecified,
}

/// Flash size.
#[derive(Clone, Copy, Debug, PartialEq, Eq, Structural)]
pub enum Flash {
    K128,
    K256,
    K512,
    K1024,
    K2048,
    Unspecified,
}

/// Kind of the device address.
#[derive(Clone, Copy, Debug, PartialEq, Eq, Structural)]
pub enum AddressType {
    Public,
    Random,
}

pub open spec fn variant_code(v: Variant) -> u32 {
    match v {
        Variant::AAB0 => 0x41414230,
        Variant::ADA0 => 0x41444130,
        Variant::ADB0 => 0x41444230,
        Variant::AAD0 => 0x41414430,
        Variant::QKAA => 0x514b4141,
        Variant::CLAA => 0x434c4141,
        Variant::Unspecified => 0xffffffff,
    }
}

impl Variant {
    /// The register value that stands for the variant.
    pub fn value(self) -> (v: u32)
        ensures
            v == variant_code(self),
    {
        match self {
            Variant::AAB0 => 0x41414230,
            Variant::ADA0 => 0x41444130,
            Variant::ADB0 => 0x41444230,
            Variant::AAD0 => 0x41414430,
            Variant::QKAA => 0x514b4141,
            Variant::CLAA => 0x434c4141,
            Variant::Unspecified => 0xffffffff,
        }
    }
}

impl AddressType {
    /// The register value that stands for the address type.
    pub fn value(self) -> (v: u32)
        ensures
            self == AddressType::Public ==> v == 0,
            self == AddressType::Random ==> v == 1,
    {
        match self {
            AddressType::Public => 0,
            AddressType::Random => 1,
        }
    }
}

/// The variant decoded from the variant register.
pub open spec fn decode_variant(reg: u32) -> Variant {
    if reg == 0x41414230 {
        Variant::AAB0
    } else if reg == 0x41444130 {
        Variant::ADA0
    } else if reg == 0x41444230 {
        Variant::ADB0
    } else if reg == 0x41414430 {
        Variant::AAD0
    } else if reg == 0x514b4141 {
        Variant::QKAA
    } else if reg == 0x434c4141 {
        Variant::CLAA
    } else {
        Variant::Unspecified
    }
}

/// Byte `k` (from the least significant) of `x`.
pub open spec fn byte_of(x: u32, k: nat) -> u8 {
    ((x as nat / pow256(k)) % 256) as u8
}

pub open spec fn pow256(k: nat) -> nat
    decreases k,
{
    if k == 0 {
        1
    } else {
        256 * pow256((k - 1) as nat)
    }
}

/// The four bytes of `x`, least significant first.
pub open spec fn le_bytes(x: u32) -> Seq<u8> {
    seq![byte_of(x, 0), byte_of(x, 1), byte_of(x, 2), byte_of(x, 3)]
}

/// Hex digit `k` (from the least significant) of `x`.
pub open spec fn nibble(x: u32, k: nat) -> nat {
    (x as nat / pow16(k)) % 16
}

pub open spec fn pow16(k: nat) -> nat
    decreases k,
{
    if k == 0 {
        1
    } else {
        16 * pow16((k - 1) as nat)
    }
}

/// The lower-case ASCII hex digit of `n < 16`.
pub open spec fn hex_char(n: nat) -> u8 {
    if n < 10 {
        (48 + n) as u8
    } else {
        (87 + n) as u8
    }
}

/// The device address `hi:hi:lo:lo:lo:lo` in lower-case hex, each byte as two
/// digits, most significant first, separated by colons.
pub open spec fn address_text(lo: u32, hi: u32) -> Seq<u8> {
    seq![
        hex_char(nibble(hi, 3)),
        hex_char(nibble(hi, 2)),
        58u8,
        hex_char(nibble(hi, 1)),
        hex_char(nibble(hi, 0)),
        58u8,
        hex_char(nibble(lo, 7)),
        hex_char(nibble(lo, 6)),
        58u8,
        hex_char(nibble(lo, 5)),
        hex_char(nibble(lo, 4)),
        58u8,
        hex_char(nibble(lo, 3)),
        hex_char(nibble(lo, 2)),
        58u8,
        hex_char(nibble(lo, 1)),
        hex_char(nibble(lo, 0)),
    ]
}

/// The FICR register values as read.
#[derive(Clone, Copy, Debug, PartialEq, Eq, Structural)]
pub struct FicrRegisters {
    pub deviceid0: u32,
    pub deviceid1: u32,
    pub deviceaddrtype: u32,
    pub deviceaddr0: u32,
    pub deviceaddr1: u32,
    pub info_part: u32,
    pub info_variant: u32,
    pub info_package: u32,
    pub info_ram: u32,
    pub info_flash: u32,
}

/// The factory information of a chip.
pub struct Ficr {
    registers: FicrRegisters,
}

fn byte(x: u32, k: u32) -> (b: u8)
    requires
        k < 4,
    ensures
        b == byte_of(x, k as nat),
{
    assert(pow256(0) == 1 && pow256(1) == 256 && pow256(2) == 65536 && pow256(3) == 16777216)
        by {
        reveal_with_fuel(pow256, 4);
    }
    let r = if k == 0 {
        x & 0xff
    } else if k == 1 {
        (x >> 8) & 0xff
    } else if k == 2 {
        (x >> 16) & 0xff
    } else {
        x >> 24
    };
    assert(x & 0xff == x % 256) by (bit_vector);
    assert((x >> 8) & 0xff == (x / 256) % 256) by (bit_vector);
    assert((x >> 16) & 0xff == (x / 65536) % 256) by (bit_vector);
    assert(x >> 24 == (x / 16777216) % 256) by (bit_vector);
    r as u8
}

fn hex_digit(x: u32, k: u32) -> (c: u8)
    requires
        k < 8,
    ensures
        c == hex_char(nibble(x, k as nat)),
{
    assert(pow16(0) == 1 && pow16(1) == 16 && pow16(2) == 256 && pow16(3) == 4096 && pow16(4)
        == 65536 && pow16(5) == 1048576 && pow16(6) == 16777216 && pow16(7) == 268435456) by {
        reveal_with_fuel(pow16, 8);
    }
    let shift = 4 * k;
    let n = (x >> shift) & 0xf;
    assert(k == 0 ==> n == x % 16) by (bit_vector)
        requires
            shift == 4 * k,
            n == (x >> shift) & 0xf,
    ;
    assert(k == 1 ==> n == (x / 16) % 16) by (bit_vector)
        requires
            shift == 4 * k,
            n == (x >> shift) & 0xf,
    ;
    assert(k == 2 ==> n == (x / 256) % 16) by (bit_vector)
        requires
            shift == 4 * k,
            n == (x >> shift) & 0xf,
    ;
    assert(k == 3 ==> n == (x / 4096) % 16) by (bit_vector)
        requires
            shift == 4 * k,
            n == (x >> shift) & 0xf,
    ;
    assert(k == 4 ==> n == (x / 65536) % 16) by (bit_vector)
        requires
            shift == 4 * k,
            n == (x >> shift) & 0xf,
    ;
    assert(k == 5 ==> n == (x / 1048576) % 16) by (bit_vector)
        requires
            shift == 4 * k,
            n == (x >> shift) & 0xf,
    ;
    assert(k == 6 ==> n == (x / 16777216) % 16) by (bit_vector)
        requires
            shift == 4 * k,
            n == (x >> shift) & 0xf,
    ;
    assert(k == 7 ==> n == (x / 268435456) % 16) by (bit_vector)
        requires
            shift == 4 * k,
            n == (x >> shift) & 0xf,
    ;
    assert(n < 16) by (bit_vector)
        requires
            n == (x >> shift) & 0xf,
    ;
    if n < 10 {
        (48 + n) as u8
    } else {
        (87 + n) as u8
    }
}

impl Ficr {
    /// The register values this information was decoded from.
    pub closed spec fn regs(&self) -> FicrRegisters {
        self.registers
    }

    /// The factory information decoded from the register values as read.
    pub fn from_registers(registers: FicrRegisters) -> (f: Ficr)
        ensures
            f.regs() == registers,
    {
        Ficr { registers }
    }

    /// The part code.
    pub fn part(&self) -> (p: Part)
        ensures
            p == (if self.regs().info_part == 0x5340 {
                Part::N5340
            } else {
                Part::Unspecified
            }),
    {
        if self.registers.info_part == 0x5340 {
            Part::N5340
        } else {
            Part::Unspecified
        }
    }

    /// The variant: every documented nRF5340 variant code is recognized.
    pub fn variant(&self) -> (v: Variant)
        ensures
            v == decode_variant(self.regs().info_variant),
    {
        let reg = self.registers.info_variant;
        if reg == 0x41414230 {
            Variant::AAB0
        } else if reg == 0x41444130 {
            Variant::ADA0
        } else if reg == 0x41444230 {
            Variant::ADB0
        } else if reg == 0x41414430 {
            Variant::AAD0
        } else if reg == 0x514b4141 {
            Variant::QKAA
        } else if reg == 0x434c4141 {
            Variant::CLAA
        } else {
            Variant::Unspecified
        }
    }

    /// Whether the chip has the updated access port protection logic. An
    /// unrecognized variant is taken to be a new one, so this holds of all.
    pub fn has_updated_approtect_logic(&self) -> (b: bool)
        ensures
            b,
    {
        true
    }

    /// The package option.
    pub fn package(&self) -> (p: Package)
        ensures
            p == (if self.regs().info_package == 0x2006 {
                Package::QK
            } else if self.regs().info_package == 0x2007 {
                Package::CL
            } else {
                Package::Unspecified
            }),
    {
        let reg = self.registers.info_package;
        if reg == 0x2006 {
            Package::QK
        } else if reg == 0x2007 {
            Package::CL
        } else {
            Package::Unspecified
        }
    }

    /// The RAM size.
    pub fn ram(&self) -> (r: Ram)
        ensures
            r == (if self.regs().info_ram == 0x10 {
                Ram::K16
            } else if self.regs().info_ram == 0x20 {
                Ram::K32
            } else if self.regs().info_ram == 0x40 {
                Ram::K64
            } else if self.regs().info_ram == 0x80 {
                Ram::K128
            } else if self.regs().info_ram == 0x100 {
                Ram::K256
            } else {
                Ram::Unspecified
            }),
    {
        let reg = self.registers.info_ram;
        if reg == 0x10 {
            Ram::K16
        } else if reg == 0x20 {
            Ram::K32
        } else if reg == 0x40 {
            Ram::K64
        } else if reg == 0x80 {
            Ram::K128
        } else if reg == 0x100 {
            Ram::K256
        } else {
            Ram::Unspecified
        }
    }

    /// The flash size.
    pub fn flash(&self) -> (f: Flash)
        ensures
            f == (if self.regs().info_flash == 0x80 {
                Flash::K128
            } else if self.regs().info_flash == 0x100 {
                Flash::K256
            } else if self.regs().info_flash == 0x200 {
                Flash::K512
            } else if self.regs().info_flash == 0x400 {
                Flash::K1024
            } else if self.regs().info_flash == 0x800 {
                Flash::K2048
            } else {
                Flash::Unspecified
            }),
    {
        let reg = self.registers.info_flash;
        if reg == 0x80 {
            Flash::K128
        } else if reg == 0x100 {
            Flash::K256
        } else if reg == 0x200 {
            Flash::K512
        } else if reg == 0x400 {
            Flash::K1024
        } else if reg == 0x800 {
            Flash::K2048
        } else {
            Flash::Unspecified
        }
    }

    /// The 64-bit device identifier, least significant byte first.
    pub fn id(&self) -> (id: [u8; 8])
        ensures
            id@ == le_bytes(self.regs().deviceid0) + le_bytes(self.regs().deviceid1),
    {
        let lo = self.registers.deviceid0;
        let hi = self.registers.deviceid1;
        let id = [
            byte(lo, 0),
            byte(lo, 1),
            byte(lo, 2),
            byte(lo, 3),
            byte(hi, 0),
            byte(hi, 1),
            byte(hi, 2),
            byte(hi, 3),
        ];
        assert(id@ =~= le_bytes(lo) + le_bytes(hi));
        id
    }

    /// The 48-bit device address, least significant byte first.
    pub fn address(&self) -> (addr: [u8; 6])
        ensures
            addr@ == le_bytes(self.regs().deviceaddr0) + le_bytes(
                self.regs().deviceaddr1,
            ).subrange(0, 2),
    {
        let lo = self.registers.deviceaddr0;
        let hi = self.registers.deviceaddr1;
        let addr = [byte(lo, 0), byte(lo, 1), byte(lo, 2), byte(lo, 3), byte(hi, 0), byte(hi, 1)];
        assert(addr@ =~= le_bytes(lo) + le_bytes(hi).subrange(0, 2));
        addr
    }

    /// The kind of the device address: public where the type bit is clear.
    pub fn address_type(&self) -> (t: AddressType)
        ensures
            t == (if self.regs().deviceaddrtype & 1 == 0 {
                AddressType::Public
            } else {
                AddressType::Random
            }),
    {
        if self.registers.deviceaddrtype & 1 == 0 {
            AddressType::Public
        } else {
            AddressType::Random
        }
    }

    /// The device address as text, such as `46:db:52:cd:93:9e`, in ASCII.
    pub fn address_str(&self) -> (text: [u8; 17])
        ensures
            text@ == address_text(self.regs().deviceaddr0, self.regs().deviceaddr1),
    {
        let lo = self.registers.deviceaddr0;
        let hi = self.registers.deviceaddr1;
        let text = [
            hex_digit(hi, 3),
            hex_digit(hi, 2),
            58u8,
            hex_digit(hi, 1),
            hex_digit(hi, 0),
            58u8,
            hex_digit(lo, 7),
            hex_digit(lo, 6),
            58u8,
            hex_digit(lo, 5),
            hex_digit(lo, 4),
            58u8,
            hex_digit(lo, 3),
            hex_digit(lo, 2),
            58u8,
            hex_digit(lo, 1),
            hex_digit(lo, 0),
        ];
        assert(text@ =~= address_text(lo, hi));
        text
    }
}

} // verus!

verus! {

/// The value of a little-endian byte sequence.
pub open spec fn le_value(bytes: Seq<u8>) -> nat
    decreases bytes.len(),
{
    if bytes.len() == 0 {
        0
    } else {
        bytes[0] as nat + 256 * le_value(bytes.drop_first())
    }
}

proof fn lemma_le_bytes_value(x: u32)
    ensures
        le_value(le_bytes(x)) == x as nat,
{
    let s = le_bytes(x);
    reveal_with_fuel(pow256, 4);
    reveal_with_fuel(le_value, 5);
    assert(s.drop_first().drop_first().drop_first().drop_first() =~= Seq::<u8>::empty());
    assert(s.drop_first() =~= seq![byte_of(x, 1), byte_of(x, 2), byte_of(x, 3)]);
    assert(s.drop_first().drop_first() =~= seq![byte_of(x, 2), byte_of(x, 3)]);
    assert(s.drop_first().drop_first().drop_first() =~= seq![byte_of(x, 3)]);
    let b0 = x % 256;
    let b1 = (x / 256) % 256;
    let b2 = (x / 65536) % 256;
    let b3 = (x / 16777216) % 256;
    assert(pow256(0) == 1 && pow256(1) == 256 && pow256(2) == 65536 && pow256(3) == 16777216);
    assert(x as nat / 1 == x as nat);
    assert((x as nat % 256) < 256);
    assert(byte_of(x, 0) as nat == b0);
    assert(byte_of(x, 1) as nat == b1);
    assert(byte_of(x, 2) as nat == b2);
    assert(byte_of(x, 3) as nat == b3);
    let s3 = s.drop_first().drop_first().drop_first();
    assert(le_value(s3) == b3 + 256 * le_value(s3.drop_first()));
    assert(le_value(s3) == b3);
    assert(le_value(s.drop_first().drop_first()) == b2 + 256 * b3);
    assert(le_value(s.drop_first()) == b1 + 256 * (b2 + 256 * b3));
    assert(le_value(s) == b0 + 256 * (b1 + 256 * (b2 + 256 * b3)));
    assert(b0 + 256 * (b1 + 256 * (b2 + 256 * b3)) == x) by (bit_vector)
        requires
            b0 == x % 256,
            b1 == (x / 256) % 256,
            b2 == (x / 65536) % 256,
            b3 == (x / 16777216) % 256,
    ;
}

/// The device identifier is the 64-bit number `deviceid1:deviceid0` in
/// little-endian order: read back as such, its bytes give that number.
pub proof fn law_id_is_little_endian(deviceid0: u32, deviceid1: u32)
    ensures
        le_value(le_bytes(deviceid0) + le_bytes(deviceid1)) == deviceid0 as nat + 4294967296
            * deviceid1 as nat,
{
    let a = le_bytes(deviceid0);
    let b = le_bytes(deviceid1);
    lemma_le_bytes_value(deviceid0);
    lemma_le_bytes_value(deviceid1);
    reveal_with_fuel(le_value, 5);
    let ab = a + b;
    assert(ab.drop_first() =~= a.drop_first() + b);
    assert(ab.drop_first().drop_first() =~= a.drop_first().drop_first() + b);
    assert(ab.drop_first().drop_first().drop_first() =~= a.drop_first().drop_first().drop_first()
        + b);
    assert(ab.drop_first().drop_first().drop_first().drop_first() =~= b);
    assert(a.drop_first().drop_first().drop_first().drop_first() =~= Seq::<u8>::empty());
    let a3 = a.drop_first().drop_first().drop_first();
    assert(le_value(a3 + b) == a3[0] as nat + 256 * le_value(b));
    assert(le_value(a3) == a3[0] as nat + 256 * le_value(a3.drop_first()));
    assert(le_value(a3.drop_first()) == 0);
    let a2 = a.drop_first().drop_first();
    assert(le_value(a2 + b) == a2[0] as nat + 256 * le_value(a3 + b));
    let a1 = a.drop_first();
    assert(le_value(a1 + b) == a1[0] as nat + 256 * le_value(a2 + b));
    assert(le_value(ab) == a[0] as nat + 256 * le_value(a1 + b));
}

/// The address text is ASCII: colons between the bytes and lower-case hex
/// digits elsewhere, so it is valid text of 17 characters.
pub proof fn law_address_text_is_ascii(lo: u32, hi: u32)
    ensures
        address_text(lo, hi).len() == 17,
        forall|i: int|
            0 <= i < 17 ==> {
                let c = #[trigger] address_text(lo, hi)[i];
                if i % 3 == 2 {
                    c == 58
                } else {
                    (48 <= c <= 57) || (97 <= c <= 102)
                }
            },
{
    assert forall|x: u32, k: nat| #[trigger] nibble(x, k) < 16 by {
        assert(pow16(k) > 0) by {
            lemma_pow16_positive(k);
        }
    }
}

proof fn lemma_pow16_positive(k: nat)
    ensures
        pow16(k) > 0,
    decreases k,
{
    if k > 0 {
        lemma_pow16_positive((k - 1) as nat);
    }
}

/// Every documented variant code decodes to its variant, and a decoded
/// variant other than `Unspecified` is the one whose code was read.
pub proof fn law_variant_round_trip(v: Variant, reg: u32)
    ensures
        v != Variant::Unspecified ==> decode_variant(variant_code(v)) == v,
        decode_variant(reg) != Variant::Unspecified ==> variant_code(decode_variant(reg)) == reg,
{
}

} // verus!
