//! Configuration of the nRF5340 development kit board, and the lookup of its
//! system-call drivers.

use vstd::prelude::*;

verus! {

/// USB vendor identifier (Nordic Semiconductor).
pub const VENDOR_ID: u16 = 0x1915;
/// USB product identifier.
pub const PRODUCT_ID: u16 = 0x521f;
/// Discharge count above which a capacitive pad counts as touched.
pub const THRESHOLD: u32 = 20;
/// Milliseconds between two scans of a capacitive pad.
pub const CAP_TOUCH_SCAN_MS: u32 = 100;
/// Number of concurrent processes the board supports.
pub const NUM_PROCS: usize = 8;
/// Whether the debug output goes over Segger RTT (else over the UART).
pub const USB_DEBUGGING: bool = false;
/// System tick frequency, in hertz.
pub const SYSTICK_HZ: u32 = 64_000_000;
/// Baud rate of the console UART.
pub const UART_BAUD: u32 = 115200;

/// A region of flash that processes may use for storage.
#[derive(Clone, Copy, Debug, PartialEq, Eq, Structural)]
pub struct StorageLocation {
    pub address: usize,
    pub size: usize,
}

/// The storage regions: sixteen pages and then four, as the MPU needs.
pub fn storage_locations() -> (s: [StorageLocation; 2])
    ensures
        s@ == seq![
            StorageLocation { address: 0xC0000, size: 0x10000 },
            StorageLocation { address: 0xD0000, size: 0x4000 },
        ],
{
    [
        StorageLocation { address: 0xC0000, size: 0x10000 },
        StorageLocation { address: 0xD0000, size: 0x4000 },
    ]
}

/// The system-call drivers the board offers.
#[derive(Clone, Copy, Debug, PartialEq, Eq, Structural)]
pub enum PlatformDriver {
    Console,
    Alarm,
    Led,
    UsbCtap,
    CapacitiveTouch,
    Rng,
    Ipc,
    Nvmc,
}

/// The driver numbers of the board's drivers.
#[derive(Clone, Copy, Debug, PartialEq, Eq, Structural)]
pub struct DriverNumbers {
    pub console: usize,
    pub alarm: usize,
    pub led: usize,
    pub usb_ctap: usize,
    /// The capacitive pads are served as buttons.
    pub button: usize,
    pub rng: usize,
    pub ipc: usize,
    pub nvmc: usize,
}

/// The driver that answers `num`: the first in the board's order whose
/// number it is.
pub open spec fn lookup(d: DriverNumbers, num: usize) -> Option<PlatformDriver> {
    if num == d.console {
        Some(PlatformDriver::Console)
    } else if num == d.alarm {
        Some(PlatformDriver::Alarm)
    } else if num == d.led {
        Some(PlatformDriver::Led)
    } else if num == d.usb_ctap {
        Some(PlatformDriver::UsbCtap)
    } else if num == d.button {
        Some(PlatformDriver::CapacitiveTouch)
    } else if num == d.rng {
        Some(PlatformDriver::Rng)
    } else if num == d.ipc {
        Some(PlatformDriver::Ipc)
    } else if num == d.nvmc {
        Some(PlatformDriver::Nvmc)
    } else {
        None
    }
}

/// The number of a driver.
pub open spec fn number_of(d: DriverNumbers, drv: PlatformDriver) -> usize {
    match drv {
        PlatformDriver::Console => d.console,
        PlatformDriver::Alarm => d.alarm,
        PlatformDriver::Led => d.led,
        PlatformDriver::UsbCtap => d.usb_ctap,
        PlatformDriver::CapacitiveTouch => d.button,
        PlatformDriver::Rng => d.rng,
        PlatformDriver::Ipc => d.ipc,
        PlatformDriver::Nvmc => d.nvmc,
    }
}

/// The board's set of system-call drivers.
pub struct Platform {
    drivers: DriverNumbers,
}

impl Platform {
    pub closed spec fn numbers(&self) -> DriverNumbers {
        self.drivers
    }

    /// A platform whose drivers have the given numbers.
    pub fn new(drivers: DriverNumbers) -> (p: Platform)
        ensures
            p.numbers() == drivers,
    {
        Platform { drivers }
    }

    /// The driver for a system call on `driver_num`, if the board has one.
    pub fn with_driver(&self, driver_num: usize) -> (r: Option<PlatformDriver>)
        ensures
            r == lookup(self.numbers(), driver_num),
    {
        let d = &self.drivers;
        if driver_num == d.console {
            Some(PlatformDriver::Console)
        } else if driver_num == d.alarm {
            Some(PlatformDriver::Alarm)
        } else if driver_num == d.led {
            Some(PlatformDriver::Led)
        } else if driver_num == d.usb_ctap {
            Some(PlatformDriver::UsbCtap)
        } else if driver_num == d.button {
            Some(PlatformDriver::CapacitiveTouch)
        } else if driver_num == d.rng {
            Some(PlatformDriver::Rng)
        } else if driver_num == d.ipc {
            Some(PlatformDriver::Ipc)
        } else if driver_num == d.nvmc {
            Some(PlatformDriver::Nvmc)
        } else {
            None
        }
    }
}

/// A system call always reaches a driver of the number it named, and every
/// number of a board driver reaches some driver.
pub proof fn law_lookup_sound(d: DriverNumbers, num: usize, drv: PlatformDriver)
    ensures
        lookup(d, num) matches Some(found) ==> number_of(d, found) == num,
        lookup(d, number_of(d, drv)) is Some,
{
}

} // verus!
