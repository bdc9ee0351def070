use lib::touch_sensor::{
    AlarmRequest, CapacitiveTouchSensor, Configuration, FloatingState, PinOp,
};

const MAX24: u32 = 0x00ff_ffff;

fn scan(s: &mut CapacitiveTouchSensor, count: u32, now: u32, pending: bool) -> lib::touch_sensor::DischargeOutcome {
    let ops = s.begin_discharge();
    assert_eq!(ops, [PinOp::MakeInput, PinOp::SetFloatingState(FloatingState::PullNone)]);
    s.complete_discharge(count, now, pending)
}

#[test]
fn new_sensor_is_idle_and_untouched() {
    let s = CapacitiveTouchSensor::new(20, 327, MAX24);
    assert!(!s.read());
    assert!(!s.is_enabled());
    assert_eq!(s.get_pin_id(), 0);
    assert_eq!(s.next_scan(), 0);
    assert!(!s.alarm());
}

#[test]
fn charge_sequence() {
    let s = CapacitiveTouchSensor::new(20, 327, MAX24);
    assert_eq!(
        s.start_measurement(),
        [PinOp::MakeOutput, PinOp::SetHigh, PinOp::MakeInput, PinOp::MakeOutput, PinOp::SetHigh]
    );
}

#[test]
fn touch_follows_threshold() {
    let mut s = CapacitiveTouchSensor::new(20, 327, MAX24);
    assert!(s.enable());
    let out = scan(&mut s, 20, 100, false);
    assert!(!s.read());
    assert!(!out.schedule_notification);
    let out = scan(&mut s, 21, 200, false);
    assert!(s.read());
    assert!(s.toggle());
    assert!(out.schedule_notification);
}

#[test]
fn notification_only_on_change() {
    let mut s = CapacitiveTouchSensor::new(20, 327, MAX24);
    s.enable();
    assert!(scan(&mut s, 50, 0, false).schedule_notification);
    assert!(!scan(&mut s, 60, 0, false).schedule_notification);
    assert!(scan(&mut s, 3, 0, false).schedule_notification);
    // A change while the deferred call is already pending sets nothing new.
    assert!(!scan(&mut s, 50, 0, true).schedule_notification);
    assert!(s.read());
}

#[test]
fn next_scan_wraps_ticks() {
    let mut s = CapacitiveTouchSensor::new(20, 327, MAX24);
    s.enable();
    let out = scan(&mut s, 0, MAX24 - 7, false);
    assert_eq!(out.alarm, Some(AlarmRequest { reference: MAX24 - 7, dt: 327 }));
    assert_eq!(s.next_scan(), 319);
    assert!(s.alarm());
}

#[test]
fn full_width_ticks_wrap() {
    let mut s = CapacitiveTouchSensor::new(20, 10, u32::MAX);
    s.enable();
    scan(&mut s, 0, u32::MAX, false);
    assert_eq!(s.next_scan(), 9);
}

#[test]
fn disable_stops_scanning() {
    let mut s = CapacitiveTouchSensor::new(20, 327, MAX24);
    s.enable();
    s.disable();
    assert!(!s.alarm());
    assert_eq!(s.next_scan(), MAX24);
    s.deactivate_to_low_power();
    assert!(!s.is_enabled());
}

#[test]
fn disable_during_measurement_waits() {
    let mut s = CapacitiveTouchSensor::new(20, 327, MAX24);
    assert!(s.enable_interrupts());
    s.begin_discharge();
    // Enabling while a measurement runs does not start another scan.
    assert!(!s.enable());
    s.disable_interrupts();
    assert!(s.is_enabled());
    let out = s.complete_discharge(30, 5, false);
    assert_eq!(out.alarm, None);
    assert!(out.schedule_notification);
    assert!(!s.is_enabled());
    assert_eq!(s.next_scan(), MAX24);
}

#[test]
fn disable_when_idle_is_immediate() {
    let mut s = CapacitiveTouchSensor::new(20, 327, MAX24);
    let (scan_now, r) = s.enable_value_interrupts();
    assert!(scan_now);
    assert_eq!(r, Ok(()));
    s.disable_interrupts();
    assert!(!s.is_enabled());
    s.enable();
    s.disable_value_interrupts();
    assert!(!s.is_enabled());
}

#[test]
fn deferred_call_reaches_clients() {
    let mut s = CapacitiveTouchSensor::new(20, 327, MAX24);
    let n = s.handle_deferred_call();
    assert!(!n.fired);
    assert_eq!(n.fired_with_value, None);
    s.set_client();
    s.set_value_client();
    s.set_pin_id(1);
    let n = s.handle_deferred_call();
    assert!(n.fired);
    assert_eq!(n.fired_with_value, Some(1));
    s.set_value(4);
    assert_eq!(s.value(), 4);
    assert_eq!(s.get_pin_id(), 4);
}

#[test]
fn pin_interface_constants() {
    let s = CapacitiveTouchSensor::new(20, 327, MAX24);
    assert_eq!(s.configuration(), Configuration::Input);
    assert_eq!(s.make_output(), Configuration::Input);
    assert_eq!(s.disable_output(), Configuration::Input);
    assert_eq!(s.make_input(), Configuration::Input);
    assert_eq!(s.disable_input(), Configuration::Input);
    assert_eq!(s.floating_state(), FloatingState::PullNone);
    assert_eq!(
        s.set_floating_state(FloatingState::PullUp),
        PinOp::SetFloatingState(FloatingState::PullUp)
    );
    assert!(!s.is_pending());
    s.set();
    s.clear();
}

#[test]
fn discharge_reads_count_while_high() {
    assert_eq!(CapacitiveTouchSensor::discharge_read(0, true), Some(1));
    assert_eq!(CapacitiveTouchSensor::discharge_read(41, true), Some(42));
    assert_eq!(CapacitiveTouchSensor::discharge_read(42, false), None);
    let s = CapacitiveTouchSensor::new(20, 327, MAX24);
    assert_eq!(s.max_ticks(), MAX24);
}
