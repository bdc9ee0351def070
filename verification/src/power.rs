//! Power management of the nRF53: power, USB-power and regulator registers.
//!
//! The USB state machine needs to hear of power events (USB detected, USB
//! removed, USB power ready) to be initialized and shut down properly; those
//! events come from these registers, so the power module has a USB client.

use vstd::prelude::*;
use crate::registers::{register_write, RegisterWrite};

verus! {

/// Base address of the power registers.
pub const POWER_BASE: u32 = 0x5000_5000;
/// Base address of the USB-power registers.
pub const USB_POWER_BASE: u32 = 0x5003_7000;
/// Base address of the regulator registers.
pub const REGULATOR_BASE: u32 = 0x5000_4000;
/// Base address of the RAM power registers.
pub const RAM_POWER_BASE_VMC: u32 = 0x5008_1000;
/// Number of RAM banks.
pub const NUM_RAM_BANKS: usize = 9;

/// Enable constant latency mode.
pub const TASK_CONSTLAT: u32 = 0x5000_5078;
/// Enable low-power mode (variable latency).
pub const TASK_LOWPWR: u32 = 0x5000_507C;
/// Power failure warning event.
pub const EVENT_POFWARN: u32 = 0x5000_5108;
/// The CPU entered WFI/WFE sleep.
pub const EVENT_SLEEPENTER: u32 = 0x5000_5114;
/// The CPU left WFI/WFE sleep.
pub const EVENT_SLEEPEXIT: u32 = 0x5000_5118;
/// Enable power interrupts.
pub const POWER_INTENSET: u32 = 0x5000_5304;
/// Disable power interrupts.
pub const POWER_INTENCLR: u32 = 0x5000_5308;
/// General purpose retention register.
pub const GPREGRET: u32 = 0x5000_551C;
/// Voltage supply detected on VBUS.
pub const EVENT_USBDETECTED: u32 = 0x5003_7100;
/// Voltage supply removed from VBUS.
pub const EVENT_USBREMOVED: u32 = 0x5003_7104;
/// USB 3.3 V supply ready.
pub const EVENT_USBPWRRDY: u32 = 0x5003_7108;
/// Enable USB-power interrupts.
pub const USB_INTENSET: u32 = 0x5003_7304;
/// Disable USB-power interrupts.
pub const USB_INTENCLR: u32 = 0x5003_7308;
/// USB supply status.
pub const USBREGSTATUS: u32 = 0x5003_7400;
/// Main supply status.
pub const MAINREGSTATUS: u32 = 0x5000_4428;

/// Power interrupts: power-failure warning, sleep enter and sleep exit.
pub const POWER_INTERRUPTS: u32 = 0x64;
/// USB-power interrupts: detected, removed and power ready.
pub const USB_INTERRUPTS: u32 = 0x7;

/// Supply voltage mode.
#[derive(Clone, Copy, Debug, PartialEq, Eq, Structural)]
pub enum MainVoltage {
    /// Supply connected to both VDD and VDDH (VDD equals VDDH).
    Normal,
    /// Supply connected to VDDH only; VDD is not connected.
    High,
}

impl MainVoltage {
    /// The register value of the mode.
    pub fn value(self) -> (v: u32)
        ensures
            self == MainVoltage::Normal ==> v == 0,
            self == MainVoltage::High ==> v == 1,
    {
        match self {
            MainVoltage::Normal => 0,
            MainVoltage::High => 1,
        }
    }
}

/// A power event told to the USB client.
#[derive(Clone, Copy, Debug, PartialEq, Eq, Structural)]
pub enum PowerEvent {
    PowerFailure,
    EnterSleep,
    ExitSleep,
    UsbPluggedIn,
    UsbPluggedOut,
    UsbPowerReady,
}

/// A receiver of power events.
pub trait PowerClient {
    fn handle_power_event(&self, event: PowerEvent);
}

/// One step of interrupt handling, performed in order.
#[derive(Clone, Copy, Debug, PartialEq, Eq, Structural)]
pub enum PowerStep {
    /// Write a register.
    Write(RegisterWrite),
    /// Tell the USB client of an event.
    Notify(PowerEvent),
}

/// Whether an event register reads as set.
pub open spec fn event_set(reg: u32) -> bool {
    reg & 1 != 0
}

/// The steps for one USB event register that read `reg`.
pub open spec fn event_steps(reg: u32, address: u32, event: PowerEvent, has_client: bool) -> Seq<
    PowerStep,
> {
    if event_set(reg) {
        if has_client {
            seq![
                PowerStep::Write(RegisterWrite { address, value: 0 }),
                PowerStep::Notify(event),
            ]
        } else {
            seq![PowerStep::Write(RegisterWrite { address, value: 0 })]
        }
    } else {
        Seq::empty()
    }
}

/// All the steps of handling a power interrupt, given the three USB event
/// registers as read.
pub open spec fn interrupt_steps(has_client: bool, detected: u32, removed: u32, ready: u32) -> Seq<
    PowerStep,
> {
    seq![
        PowerStep::Write(RegisterWrite { address: POWER_INTENCLR, value: 0xffff_ffff }),
        PowerStep::Write(RegisterWrite { address: USB_INTENCLR, value: 0xffff_ffff }),
    ] + event_steps(detected, EVENT_USBDETECTED, PowerEvent::UsbPluggedIn, has_client)
        + event_steps(removed, EVENT_USBREMOVED, PowerEvent::UsbPluggedOut, has_client)
        + event_steps(ready, EVENT_USBPWRRDY, PowerEvent::UsbPowerReady, has_client) + seq![
        PowerStep::Write(RegisterWrite { address: EVENT_POFWARN, value: 0 }),
        PowerStep::Write(RegisterWrite { address: EVENT_SLEEPENTER, value: 0 }),
        PowerStep::Write(RegisterWrite { address: EVENT_SLEEPEXIT, value: 0 }),
        PowerStep::Write(RegisterWrite { address: USB_INTENSET, value: USB_INTERRUPTS }),
        PowerStep::Write(RegisterWrite { address: POWER_INTENSET, value: POWER_INTERRUPTS }),
    ]
}

/// The retention byte held in a GPREGRET register value.
pub open spec fn gpregret_byte(reg: u32) -> u8 {
    (reg % 256) as u8
}

/// The write that sets the retention byte to `val`.
pub open spec fn gpregret_write(val: u8) -> RegisterWrite {
    RegisterWrite { address: GPREGRET, value: val as u32 }
}

/// The power management driver.
pub struct Power {
    has_usb_client: bool,
}

impl Power {
    /// Whether a USB client was registered.
    pub closed spec fn has_client(&self) -> bool {
        self.has_usb_client
    }

    /// A driver with no USB client.
    pub fn new() -> (p: Power)
        ensures
            !p.has_client(),
    {
        Power { has_usb_client: false }
    }

    /// Registers the USB client; the caller keeps the client itself.
    pub fn set_usb_client(&mut self)
        ensures
            final(self).has_client(),
    {
        self.has_usb_client = true;
    }

    /// The event register of a USB-power event.
    pub open spec fn usb_event_register(event: PowerEvent) -> u32 {
        match event {
            PowerEvent::UsbPluggedIn => EVENT_USBDETECTED,
            PowerEvent::UsbPluggedOut => EVENT_USBREMOVED,
            _ => EVENT_USBPWRRDY,
        }
    }

    /// The first steps of handling a power interrupt: every power and
    /// USB-power interrupt off.
    pub fn interrupt_prologue(&self) -> (w: [RegisterWrite; 2])
        ensures
            w@ == seq![
                RegisterWrite { address: POWER_INTENCLR, value: 0xffff_ffff },
                RegisterWrite { address: USB_INTENCLR, value: 0xffff_ffff },
            ],
    {
        [self.disable_all_chip_interrupts(), self.disable_all_usb_interrupts()]
    }

    /// The steps for one USB-power event whose register read `reg`: when set,
    /// clear it and tell the client, if there is one.
    pub fn usb_event(&self, event: PowerEvent, reg: u32) -> (steps: Vec<PowerStep>)
        requires
            event == PowerEvent::UsbPluggedIn || event == PowerEvent::UsbPluggedOut || event
                == PowerEvent::UsbPowerReady,
        ensures
            steps@ == event_steps(reg, Self::usb_event_register(event), event, self.has_client()),
    {
        let address = match event {
            PowerEvent::UsbPluggedIn => EVENT_USBDETECTED,
            PowerEvent::UsbPluggedOut => EVENT_USBREMOVED,
            _ => EVENT_USBPWRRDY,
        };
        let mut steps: Vec<PowerStep> = Vec::new();
        if reg & 1 != 0 {
            steps.push(PowerStep::Write(register_write(address, 0)));
            if self.has_usb_client {
                steps.push(PowerStep::Notify(event));
            }
        }
        assert(steps@ =~= event_steps(reg, address, event, self.has_client()));
        steps
    }

    /// The last steps of handling a power interrupt: the unused events
    /// cleared, then the USB-power and power interrupts on.
    pub fn interrupt_epilogue(&self) -> (w: [RegisterWrite; 5])
        ensures
            w@ == seq![
                RegisterWrite { address: EVENT_POFWARN, value: 0 },
                RegisterWrite { address: EVENT_SLEEPENTER, value: 0 },
                RegisterWrite { address: EVENT_SLEEPEXIT, value: 0 },
                RegisterWrite { address: USB_INTENSET, value: USB_INTERRUPTS },
                RegisterWrite { address: POWER_INTENSET, value: POWER_INTERRUPTS },
            ],
    {
        [
            register_write(EVENT_POFWARN, 0),
            register_write(EVENT_SLEEPENTER, 0),
            register_write(EVENT_SLEEPEXIT, 0),
            self.enable_usb_interrupts(),
            self.enable_chip_interrups(),
        ]
    }

    /// Handles a power interrupt. `detected`, `removed` and `ready` are the
    /// three USB event registers as read; the answer is the register writes
    /// and client notifications to perform, in order: interrupts off, each
    /// set event cleared and told, the other events cleared, interrupts on.
    /// (`interrupt_prologue`, `usb_event` and `interrupt_epilogue` give the
    /// same steps piece by piece, for a caller that reads each event register
    /// just before its turn.)
    pub fn handle_interrupt(&self, detected: u32, removed: u32, ready: u32) -> (steps: Vec<
        PowerStep,
    >)
        ensures
            steps@ == interrupt_steps(self.has_client(), detected, removed, ready),
    {
        let mut steps: Vec<PowerStep> = Vec::new();
        let head = self.interrupt_prologue();
        steps.push(PowerStep::Write(head[0]));
        steps.push(PowerStep::Write(head[1]));
        let ghost g0 = steps@;
        let mut e1 = self.usb_event(PowerEvent::UsbPluggedIn, detected);
        let mut e2 = self.usb_event(PowerEvent::UsbPluggedOut, removed);
        let mut e3 = self.usb_event(PowerEvent::UsbPowerReady, ready);
        let ghost g1 = e1@;
        let ghost g2 = e2@;
        let ghost g3 = e3@;
        steps.append(&mut e1);
        steps.append(&mut e2);
        steps.append(&mut e3);
        assert(steps@ =~= g0 + g1 + g2 + g3);
        let tail = self.interrupt_epilogue();
        steps.push(PowerStep::Write(tail[0]));
        steps.push(PowerStep::Write(tail[1]));
        steps.push(PowerStep::Write(tail[2]));
        steps.push(PowerStep::Write(tail[3]));
        steps.push(PowerStep::Write(tail[4]));
        assert(steps@ =~= interrupt_steps(self.has_client(), detected, removed, ready));
        steps
    }

    /// Enables the USB-power interrupts.
    pub fn enable_usb_interrupts(&self) -> (w: RegisterWrite)
        ensures
            w == (RegisterWrite { address: USB_INTENSET, value: USB_INTERRUPTS }),
    {
        register_write(USB_INTENSET, USB_INTERRUPTS)
    }

    /// Enables the power interrupts.
    pub fn enable_chip_interrups(&self) -> (w: RegisterWrite)
        ensures
            w == (RegisterWrite { address: POWER_INTENSET, value: POWER_INTERRUPTS }),
    {
        register_write(POWER_INTENSET, POWER_INTERRUPTS)
    }

    /// Enables the USB-power interrupts in `intr`.
    pub fn enable_usb_interrupt(&self, intr: u32) -> (w: RegisterWrite)
        ensures
            w == (RegisterWrite { address: USB_INTENSET, value: intr }),
    {
        register_write(USB_INTENSET, intr)
    }

    /// Disables the USB-power interrupts in `intr`.
    pub fn clear_usb_interrupt(&self, intr: u32) -> (w: RegisterWrite)
        ensures
            w == (RegisterWrite { address: USB_INTENCLR, value: intr }),
    {
        register_write(USB_INTENCLR, intr)
    }

    /// Disables every USB-power interrupt.
    pub fn disable_all_usb_interrupts(&self) -> (w: RegisterWrite)
        ensures
            w == (RegisterWrite { address: USB_INTENCLR, value: 0xffff_ffff }),
    {
        register_write(USB_INTENCLR, 0xffff_ffff)
    }

    /// Enables the power interrupts in `intr`.
    pub fn enable_chip_interrupt(&self, intr: u32) -> (w: RegisterWrite)
        ensures
            w == (RegisterWrite { address: POWER_INTENSET, value: intr }),
    {
        register_write(POWER_INTENSET, intr)
    }

    /// Disables the power interrupts in `intr`.
    pub fn clear_chip_interrupt(&self, intr: u32) -> (w: RegisterWrite)
        ensures
            w == (RegisterWrite { address: POWER_INTENCLR, value: intr }),
    {
        register_write(POWER_INTENCLR, intr)
    }

    /// Disables every power interrupt.
    pub fn disable_all_chip_interrupts(&self) -> (w: RegisterWrite)
        ensures
            w == (RegisterWrite { address: POWER_INTENCLR, value: 0xffff_ffff }),
    {
        register_write(POWER_INTENCLR, 0xffff_ffff)
    }

    /// The supply mode, from the main supply status register as read.
    pub fn get_main_supply_status(&self, mainregstatus: u32) -> (v: MainVoltage)
        ensures
            mainregstatus & 1 == 0 ==> v == MainVoltage::Normal,
            mainregstatus & 1 != 0 ==> v == MainVoltage::High,
    {
        if mainregstatus & 1 == 0 {
            MainVoltage::Normal
        } else {
            MainVoltage::High
        }
    }

    /// Whether VBUS is present, from the USB supply status register as read.
    pub fn is_vbus_present(&self, usbregstatus: u32) -> (b: bool)
        ensures
            b == (usbregstatus & 1 != 0),
    {
        usbregstatus & 1 != 0
    }

    /// Whether the USB supply is ready, from the USB supply status register
    /// as read.
    pub fn is_usb_power_ready(&self, usbregstatus: u32) -> (b: bool)
        ensures
            b == (usbregstatus & 2 != 0),
    {
        usbregstatus & 2 != 0
    }

    /// The retention byte, from the GPREGRET register as read. It survives a
    /// soft reset; the bootloader reads a flag from it.
    pub fn get_gpregret(&self, gpregret: u32) -> (v: u8)
        ensures
            v == gpregret_byte(gpregret),
    {
        let v = gpregret & 0xff;
        assert(gpregret & 0xff == gpregret % 256) by (bit_vector);
        v as u8
    }

    /// Sets the retention byte.
    pub fn set_gpregret(&self, val: u8) -> (w: RegisterWrite)
        ensures
            w == gpregret_write(val),
    {
        register_write(GPREGRET, val as u32)
    }
}

} // verus!

verus! {

proof fn lemma_event_steps_notify(
    reg: u32,
    address: u32,
    event: PowerEvent,
    has_client: bool,
    ev: PowerEvent,
)
    ensures
        event_steps(reg, address, event, has_client).contains(PowerStep::Notify(ev)) <==> (
        has_client && event_set(reg) && ev == event),
{
    broadcast use vstd::seq_lib::lemma_seq_contains_after_push;
    broadcast use vstd::seq_lib::lemma_seq_empty_contains_nothing;

    let w = PowerStep::Write(RegisterWrite { address, value: 0 });
    assert(seq![w] =~= Seq::<PowerStep>::empty().push(w));
    assert(seq![w, PowerStep::Notify(event)] =~= Seq::<PowerStep>::empty().push(w).push(
        PowerStep::Notify(event),
    ));
}

/// Handling a power interrupt first turns every power and USB-power interrupt
/// off and ends by turning the handled ones back on; in between it tells the
/// USB client of each USB event whose register was set, and of no other
/// event, and only when a client is registered.
pub proof fn law_interrupt_handling(
    has_client: bool,
    detected: u32,
    removed: u32,
    ready: u32,
    ev: PowerEvent,
)
    ensures
        interrupt_steps(has_client, detected, removed, ready).len() >= 7,
        interrupt_steps(has_client, detected, removed, ready)[0] == PowerStep::Write(
            RegisterWrite { address: POWER_INTENCLR, value: 0xffff_ffff },
        ),
        interrupt_steps(has_client, detected, removed, ready)[1] == PowerStep::Write(
            RegisterWrite { address: USB_INTENCLR, value: 0xffff_ffff },
        ),
        interrupt_steps(has_client, detected, removed, ready)[interrupt_steps(
            has_client,
            detected,
            removed,
            ready,
        ).len() - 2] == PowerStep::Write(
            RegisterWrite { address: USB_INTENSET, value: USB_INTERRUPTS },
        ),
        interrupt_steps(has_client, detected, removed, ready).last() == PowerStep::Write(
            RegisterWrite { address: POWER_INTENSET, value: POWER_INTERRUPTS },
        ),
        interrupt_steps(has_client, detected, removed, ready).contains(PowerStep::Notify(ev)) <==> (
        has_client && ((ev == PowerEvent::UsbPluggedIn && event_set(detected)) || (ev
            == PowerEvent::UsbPluggedOut && event_set(removed)) || (ev == PowerEvent::UsbPowerReady
            && event_set(ready)))),
{
    broadcast use vstd::seq_lib::lemma_seq_concat_contains_all_elements;
    broadcast use vstd::seq_lib::lemma_seq_contains_after_push;
    broadcast use vstd::seq_lib::lemma_seq_empty_contains_nothing;

    let head = seq![
        PowerStep::Write(RegisterWrite { address: POWER_INTENCLR, value: 0xffff_ffff }),
        PowerStep::Write(RegisterWrite { address: USB_INTENCLR, value: 0xffff_ffff }),
    ];
    let tail = seq![
        PowerStep::Write(RegisterWrite { address: EVENT_POFWARN, value: 0 }),
        PowerStep::Write(RegisterWrite { address: EVENT_SLEEPENTER, value: 0 }),
        PowerStep::Write(RegisterWrite { address: EVENT_SLEEPEXIT, value: 0 }),
        PowerStep::Write(RegisterWrite { address: USB_INTENSET, value: USB_INTERRUPTS }),
        PowerStep::Write(RegisterWrite { address: POWER_INTENSET, value: POWER_INTERRUPTS }),
    ];
    let e1 = event_steps(detected, EVENT_USBDETECTED, PowerEvent::UsbPluggedIn, has_client);
    let e2 = event_steps(removed, EVENT_USBREMOVED, PowerEvent::UsbPluggedOut, has_client);
    let e3 = event_steps(ready, EVENT_USBPWRRDY, PowerEvent::UsbPowerReady, has_client);
    lemma_event_steps_notify(detected, EVENT_USBDETECTED, PowerEvent::UsbPluggedIn, has_client, ev);
    lemma_event_steps_notify(removed, EVENT_USBREMOVED, PowerEvent::UsbPluggedOut, has_client, ev);
    lemma_event_steps_notify(ready, EVENT_USBPWRRDY, PowerEvent::UsbPowerReady, has_client, ev);
    assert(head =~= Seq::<PowerStep>::empty().push(head[0]).push(head[1]));
    assert(tail =~= Seq::<PowerStep>::empty().push(tail[0]).push(tail[1]).push(tail[2]).push(
        tail[3],
    ).push(tail[4]));
    let s = interrupt_steps(has_client, detected, removed, ready);
    assert(s == head + e1 + e2 + e3 + tail);
    let n = s.len();
    assert(s[n - 1] == tail[4]);
    assert(s[n - 2] == tail[3]);
}

/// The retention byte reads back as written: reading the GPREGRET register
/// after `set_gpregret(val)`'s write gives `val` through `get_gpregret`.
pub proof fn law_gpregret_round_trip(val: u8)
    ensures
        gpregret_write(val).address == GPREGRET,
        gpregret_byte(gpregret_write(val).value) == val,
{
}

} // verus!
