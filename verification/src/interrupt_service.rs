//! Interrupt dispatch of the nRF5340 application core's default peripherals.

use vstd::prelude::*;

verus! {

/// The interrupt numbers the nRF5340 peripherals raise.
#[derive(Clone, Copy, Debug, PartialEq, Eq, Structural)]
pub struct PeripheralInterrupts {
    pub usbd: u32,
    pub gpiote: u32,
    pub radio: u32,
}

/// Which peripheral serves an interrupt.
#[derive(Clone, Copy, Debug, PartialEq, Eq, Structural)]
pub enum InterruptRoute {
    /// The USB device controller.
    Usbd,
    /// The GPIO tasks and events port.
    Gpiote,
    /// The IEEE 802.15.4 radio.
    Ieee802154Radio,
    /// The BLE radio.
    BleRadio,
    /// A radio interrupt while neither radio is enabled: nothing to do.
    RadioIdle,
    /// A radio interrupt while both radios are enabled, which they cannot
    /// be: report it on the debug output.
    RadioConflict,
    /// Not an nRF5340 peripheral: hand it to the nRF53 peripherals, whose
    /// answer is the answer.
    Delegate,
}

/// The route of `interrupt`, given whether each radio is enabled.
pub open spec fn route_of(
    ints: PeripheralInterrupts,
    interrupt: u32,
    ieee_enabled: bool,
    ble_enabled: bool,
) -> InterruptRoute {
    if interrupt == ints.usbd {
        InterruptRoute::Usbd
    } else if interrupt == ints.gpiote {
        InterruptRoute::Gpiote
    } else if interrupt == ints.radio {
        if !ieee_enabled && !ble_enabled {
            InterruptRoute::RadioIdle
        } else if ieee_enabled && !ble_enabled {
            InterruptRoute::Ieee802154Radio
        } else if !ieee_enabled && ble_enabled {
            InterruptRoute::BleRadio
        } else {
            InterruptRoute::RadioConflict
        }
    } else {
        InterruptRoute::Delegate
    }
}

/// The default peripherals of the nRF5340, as far as dispatching their
/// interrupts goes.
pub struct Nrf5340DefaultPeripherals {
    interrupts: PeripheralInterrupts,
}

impl Nrf5340DefaultPeripherals {
    pub closed spec fn interrupts(&self) -> PeripheralInterrupts {
        self.interrupts
    }

    /// The peripherals, raising the given interrupt numbers.
    pub fn new(interrupts: PeripheralInterrupts) -> (p: Nrf5340DefaultPeripherals)
        ensures
            p.interrupts() == interrupts,
    {
        Nrf5340DefaultPeripherals { interrupts }
    }

    /// Which peripheral serves `interrupt`.
    pub fn service_interrupt(&self, interrupt: u32, ieee_enabled: bool, ble_enabled: bool) -> (r:
        InterruptRoute)
        ensures
            r == route_of(self.interrupts(), interrupt, ieee_enabled, ble_enabled),
    {
        if interrupt == self.interrupts.usbd {
            InterruptRoute::Usbd
        } else if interrupt == self.interrupts.gpiote {
            InterruptRoute::Gpiote
        } else if interrupt == self.interrupts.radio {
            match (ieee_enabled, ble_enabled) {
                (false, false) => InterruptRoute::RadioIdle,
                (true, false) => InterruptRoute::Ieee802154Radio,
                (false, true) => InterruptRoute::BleRadio,
                (true, true) => InterruptRoute::RadioConflict,
            }
        } else {
            InterruptRoute::Delegate
        }
    }

    /// Whether the interrupt was serviced: always, but for one delegated to
    /// the nRF53 peripherals, where their answer counts.
    pub fn serviced(route: InterruptRoute, delegated_answer: bool) -> (b: bool)
        ensures
            route == InterruptRoute::Delegate ==> b == delegated_answer,
            route != InterruptRoute::Delegate ==> b,
    {
        match route {
            InterruptRoute::Delegate => delegated_answer,
            _ => true,
        }
    }
}

/// The two radios are never both driven by one interrupt: a radio interrupt
/// goes to at most one of them, and to one exactly when only it is enabled.
pub proof fn law_one_radio_at_most(
    ints: PeripheralInterrupts,
    interrupt: u32,
    ieee_enabled: bool,
    ble_enabled: bool,
)
    requires
        interrupt == ints.radio,
        interrupt != ints.usbd,
        interrupt != ints.gpiote,
    ensures
        route_of(ints, interrupt, ieee_enabled, ble_enabled) == InterruptRoute::Ieee802154Radio
            <==> (ieee_enabled && !ble_enabled),
        route_of(ints, interrupt, ieee_enabled, ble_enabled) == InterruptRoute::BleRadio <==> (
        ble_enabled && !ieee_enabled),
{
}

} // verus!
