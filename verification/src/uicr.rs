//! User information configuration registers (UICR).
//!
//! Enough of them to tell whether the access port protection is on, and the
//! output voltage setting of the REG0 regulator stage.

use vstd::prelude::*;
use vstd::std_specs::convert::FromSpecImpl;
use crate::registers::{register_write, RegisterWrite};

verus! {

/// Base address of the UICR registers.
pub const UICR_BASE: u32 = 0x1000_1200;
/// The UICR access port protection word (in flash, kept across resets).
pub const UICR_APPROTECT: u32 = 0x1000_1200;
/// The UICR access port protection value that leaves the port open.
pub const APPROTECT_CUSTOM: u32 = 0x6969_6969;

/// The register that reports the access port protection.
pub const APPROTECT_STATUS: u32 = 0x5000_600C;

/// Output voltage of the REG0 regulator stage. It depends on the board; a
/// chip fresh from the factory or fully erased holds the default (7), which
/// outputs 1.8 V.
#[allow(non_camel_case_types)]
#[derive(Clone, Copy, Debug, PartialEq, Eq, Structural)]
pub enum Regulator0Output {
    V1_8,
    V2_1,
    V2_4,
    V2_7,
    V3_0,
    V3_3,
    DEFAULT,
}

/// The setting that the low three bits of `val` select; the unused code 6
/// falls back to the default.
pub open spec fn regulator_from_bits(val: u32) -> Regulator0Output {
    let b = val % 8;
    if b == 0 {
        Regulator0Output::V1_8
    } else if b == 1 {
        Regulator0Output::V2_1
    } else if b == 2 {
        Regulator0Output::V2_4
    } else if b == 3 {
        Regulator0Output::V2_7
    } else if b == 4 {
        Regulator0Output::V3_0
    } else if b == 5 {
        Regulator0Output::V3_3
    } else {
        Regulator0Output::DEFAULT
    }
}

/// The register code of a setting.
pub open spec fn regulator_code(r: Regulator0Output) -> u32 {
    match r {
        Regulator0Output::V1_8 => 0,
        Regulator0Output::V2_1 => 1,
        Regulator0Output::V2_4 => 2,
        Regulator0Output::V2_7 => 3,
        Regulator0Output::V3_0 => 4,
        Regulator0Output::V3_3 => 5,
        Regulator0Output::DEFAULT => 7,
    }
}

impl Regulator0Output {
    /// The register code of the setting.
    pub fn value(self) -> (v: u32)
        ensures
            v == regulator_code(self),
    {
        match self {
            Regulator0Output::V1_8 => 0,
            Regulator0Output::V2_1 => 1,
            Regulator0Output::V2_4 => 2,
            Regulator0Output::V2_7 => 3,
            Regulator0Output::V3_0 => 4,
            Regulator0Output::V3_3 => 5,
            Regulator0Output::DEFAULT => 7,
        }
    }
}

impl From<u32> for Regulator0Output {
    fn from(val: u32) -> (r: Regulator0Output) {
        let b = val & 7;
        assert(val & 7 == val % 8) by (bit_vector);
        if b == 0 {
            Regulator0Output::V1_8
        } else if b == 1 {
            Regulator0Output::V2_1
        } else if b == 2 {
            Regulator0Output::V2_4
        } else if b == 3 {
            Regulator0Output::V2_7
        } else if b == 4 {
            Regulator0Output::V3_0
        } else if b == 5 {
            Regulator0Output::V3_3
        } else {
            // 7 is the default; 6 is not a valid setting and falls back to it.
            Regulator0Output::DEFAULT
        }
    }
}

impl FromSpecImpl<u32> for Regulator0Output {
    open spec fn obeys_from_spec() -> bool {
        true
    }

    open spec fn from_spec(val: u32) -> Regulator0Output {
        regulator_from_bits(val)
    }
}

/// The user information configuration registers.
pub struct Uicr {}

impl Uicr {
    /// The registers of the chip.
    pub fn new() -> (u: Uicr) {
        Uicr {  }
    }

    /// Whether the access port protection is on, from the protection status
    /// register as read: any value but zero means protected.
    pub fn is_ap_protect_enabled(&self, approtect_status: u32) -> (b: bool)
        ensures
            b == (approtect_status != 0),
    {
        approtect_status != 0
    }

    /// The write that disables the access port protection in the UICR.
    /// The UICR is in flash, so the setting persists; the same can be done
    /// outside the kernel with `nrfjprog --recover`.
    pub fn disable_ap_protect(&self) -> (w: RegisterWrite)
        ensures
            w == (RegisterWrite { address: UICR_APPROTECT, value: APPROTECT_CUSTOM }),
    {
        register_write(UICR_APPROTECT, APPROTECT_CUSTOM)
    }
}

} // verus!

verus! {

/// Reading a setting back from its register code gives the setting, and
/// only the low three bits of a register value count.
pub proof fn law_regulator_code_round_trip(r: Regulator0Output, val: u32)
    ensures
        regulator_from_bits(regulator_code(r)) == r,
        regulator_from_bits(val) == regulator_from_bits(val % 8),
        regulator_from_bits(6) == Regulator0Output::DEFAULT,
{
}

} // verus!
