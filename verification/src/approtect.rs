//! Access port protection (APPROTECT).
//!
//! On newer chips the debug access port stays locked unless the protection
//! is disabled both in the UICR and in a register written by software at
//! each boot. This driver answers the register writes that disable the
//! software protection, for the non-secure and the secure access port.

use vstd::prelude::*;
use crate::registers::{register_write, RegisterWrite};

verus! {

/// Base address of the control access port registers.
pub const APPROTECT_BASE: u32 = 0x5000_6000;
/// Software disable of the access port protection.
pub const APPROTECT_DISABLE: u32 = 0x5000_6544;
/// Software disable of the secure access port protection.
pub const SECUREAPPROTECT_DISABLE: u32 = 0x5000_654C;
/// The key that disables the protection.
pub const DISABLE_CUSTOM: u32 = 0x6969_6969;
/// The factory key of the disable registers.
pub const DISABLE_DEFAULT: u32 = 0x50FA_50FA;

/// The access port protection registers.
pub struct Approtect {
    base: u32,
}

impl Approtect {
    /// The registers, at their base address.
    pub closed spec fn base_address(&self) -> u32 {
        self.base
    }

    /// The access port protection registers of the chip.
    pub fn new() -> (a: Approtect)
        ensures
            a.base_address() == APPROTECT_BASE,
    {
        Approtect { base: APPROTECT_BASE }
    }

    /// The register writes that disable the protection in software: the
    /// disable key into the non-secure, then into the secure disable
    /// register.
    pub fn sw_disable_approtect(&self) -> (writes: [RegisterWrite; 2])
        ensures
            writes@ == seq![
                RegisterWrite { address: APPROTECT_DISABLE, value: DISABLE_CUSTOM },
                RegisterWrite { address: SECUREAPPROTECT_DISABLE, value: DISABLE_CUSTOM },
            ],
    {
        [
            register_write(APPROTECT_DISABLE, DISABLE_CUSTOM),
            register_write(SECUREAPPROTECT_DISABLE, DISABLE_CUSTOM),
        ]
    }
}

} // verus!
