//! The system-call driver of a capacitive touch sensor: user space can check
//! that it exists, start a measurement and read the touch state.

use vstd::prelude::*;
use crate::errors::{CommandReturn, ErrorCode};

verus! {

/// The driver number of the capacitive touch driver.
pub const DRIVER_NUM: usize = 0x60000;

/// Whether a measurement is under way.
#[derive(Clone, Copy, Debug, PartialEq, Eq, Structural)]
pub enum SensorState {
    Idle,
}

/// A capacitive touch sensor served to user space.
pub struct CapacitiveTouchSensor {
    state: SensorState,
    is_touched: bool,
}

impl CapacitiveTouchSensor {
    pub closed spec fn touched(&self) -> bool {
        self.is_touched
    }

    /// An idle, untouched sensor.
    pub fn new() -> (s: CapacitiveTouchSensor)
        ensures
            !s.touched(),
    {
        CapacitiveTouchSensor { state: SensorState::Idle, is_touched: false }
    }

    /// Starts a measurement: the sensor stays idle and the touch state keeps.
    pub fn start_measurement(&mut self)
        ensures
            final(self).touched() == old(self).touched(),
    {
        self.state = SensorState::Idle;
    }

    /// The current touch state.
    pub fn is_touched(&self) -> (b: bool)
        ensures
            b == self.touched(),
    {
        self.is_touched
    }

    /// A command from user space: 0 checks that the driver exists, 1 starts a
    /// measurement, 2 reads the touch state (1 when touched, else 0); other
    /// commands are not supported.
    pub fn command(&mut self, command_num: usize, _data: usize, _arg2: usize, _process: u32) -> (r:
        CommandReturn)
        ensures
            final(self).touched() == old(self).touched(),
            command_num == 0 ==> r == CommandReturn::Success,
            command_num == 1 ==> r == CommandReturn::Success,
            command_num == 2 ==> r == CommandReturn::SuccessU32(
                if old(self).touched() {
                    1
                } else {
                    0
                },
            ),
            command_num > 2 ==> r == CommandReturn::Failure(ErrorCode::NOSUPPORT),
    {
        if command_num == 0 {
            CommandReturn::success()
        } else if command_num == 1 {
            self.start_measurement();
            CommandReturn::success()
        } else if command_num == 2 {
            CommandReturn::success_u32(if self.is_touched() { 1 } else { 0 })
        } else {
            CommandReturn::failure(ErrorCode::NOSUPPORT)
        }
    }

    /// Allocating a process's grant always succeeds: the driver keeps no
    /// per-process state.
    pub fn allocate_grant(&self, _process: u32) -> (r: Result<(), ErrorCode>)
        ensures
            r is Ok,
    {
        Ok(())
    }
}

} // verus!
