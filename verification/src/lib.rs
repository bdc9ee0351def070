//! Verified drivers and board logic for the nRF5340 development kit running
//! the Tock kernel: the capacitive touch sensors, the CTAP-over-USB driver,
//! the ADC entropy source, the power, FICR, UICR and access-port registers,
//! interrupt dispatch and the board's driver table.
//!
//! The hardware and kernel objects stay outside: each driver decides, and
//! answers the register writes, pin operations or client calls to perform.

pub mod errors;
pub mod usb_ctap;
pub mod touch_sensor;
pub mod registers;
pub mod power;
pub mod ficr;
pub mod uicr;
pub mod approtect;
pub mod adc_entropy;
pub mod mock_entropy;
pub mod touch_driver;
pub mod interrupt_service;
pub mod components;
pub mod board;
