//! Memory-mapped register accesses, as values.
//!
//! The drivers in this crate do not touch hardware: they answer the register
//! writes to perform, and take the values read from registers as arguments.

use vstd::prelude::*;

verus! {

/// A 32-bit write of `value` to the register at `address`.
#[derive(Clone, Copy, Debug, PartialEq, Eq, Structural)]
pub struct RegisterWrite {
    pub address: u32,
    pub value: u32,
}

/// The register write of `value` at `address`.
pub fn register_write(address: u32, value: u32) -> (w: RegisterWrite)
    ensures
        w == (RegisterWrite { address, value }),
{
    RegisterWrite { address, value }
}

} // verus!
