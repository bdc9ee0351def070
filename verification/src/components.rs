//! Components that set up drivers for a board.

use vstd::prelude::*;
use crate::touch_driver;
use crate::usb_ctap::CtapUsbSyscallDriver;

verus! {

/// Sets up the CTAP-over-USB driver: the USB HID client takes the packet
/// size, identifiers and descriptor strings; the system-call driver starts
/// with an empty grant.
pub struct UsbCtapComponent {
    driver_num: usize,
    max_ctrl_packet_size: u8,
    vendor_id: u16,
    product_id: u16,
    strings: &'static [&'static str],
}

impl UsbCtapComponent {
    pub closed spec fn params(&self) -> (usize, u8, u16, u16) {
        (self.driver_num, self.max_ctrl_packet_size, self.vendor_id, self.product_id)
    }

    pub closed spec fn descriptor_strings(&self) -> &'static [&'static str] {
        self.strings
    }

    /// A component for the driver numbered `driver_num`.
    pub fn new(
        driver_num: usize,
        max_ctrl_packet_size: u8,
        vendor_id: u16,
        product_id: u16,
        strings: &'static [&'static str],
    ) -> (c: UsbCtapComponent)
        ensures
            c.params() == (driver_num, max_ctrl_packet_size, vendor_id, product_id),
            c.descriptor_strings() == strings,
    {
        UsbCtapComponent { driver_num, max_ctrl_packet_size, vendor_id, product_id, strings }
    }

    /// The driver number.
    pub fn driver_num(&self) -> (n: usize)
        ensures
            n == self.params().0,
    {
        self.driver_num
    }

    /// The largest control packet of the USB controller.
    pub fn max_ctrl_packet_size(&self) -> (n: u8)
        ensures
            n == self.params().1,
    {
        self.max_ctrl_packet_size
    }

    /// The USB vendor identifier.
    pub fn vendor_id(&self) -> (n: u16)
        ensures
            n == self.params().2,
    {
        self.vendor_id
    }

    /// The USB product identifier.
    pub fn product_id(&self) -> (n: u16)
        ensures
            n == self.params().3,
    {
        self.product_id
    }

    /// The USB descriptor strings.
    pub fn strings(&self) -> (s: &'static [&'static str])
        ensures
            s == self.descriptor_strings(),
    {
        self.strings
    }

    /// The system-call driver, with no process in its grant yet.
    pub fn finalize(self) -> (d: CtapUsbSyscallDriver)
        ensures
            d.wf(),
            d@ == Seq::<crate::usb_ctap::AppEntry>::empty(),
    {
        CtapUsbSyscallDriver::new()
    }
}

/// Sets up the capacitive touch driver.
pub struct CapacitiveTouchComponent {
    driver_num: usize,
}

impl CapacitiveTouchComponent {
    pub closed spec fn number(&self) -> usize {
        self.driver_num
    }

    /// A component for the driver numbered `driver_num`.
    pub fn new(driver_num: usize) -> (c: CapacitiveTouchComponent)
        ensures
            c.number() == driver_num,
    {
        CapacitiveTouchComponent { driver_num }
    }

    /// The driver number.
    pub fn driver_num(&self) -> (n: usize)
        ensures
            n == self.number(),
    {
        self.driver_num
    }

    /// The sensor driver: idle and untouched.
    pub fn finalize(self) -> (s: touch_driver::CapacitiveTouchSensor)
        ensures
            !s.touched(),
    {
        touch_driver::CapacitiveTouchSensor::new()
    }
}

} // verus!
