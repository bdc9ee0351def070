//! A capacitive touch sensor that acts as an interrupt-capable GPIO pin.
//!
//! A measurement charges the sensing pin, lets it float, and counts how long
//! it reads high: the pad is touched when the count exceeds the threshold.
//! The sensor scans periodically on an alarm while it is enabled, and tells
//! its clients (through a deferred call) when the touch state changes.
//!
//! The pin, the alarm and the deferred call are outside this module: each
//! method decides and answers what the caller is to do with them.

use vstd::prelude::*;
use crate::errors::ErrorCode;

verus! {

/// Whether a measurement is under way.
#[derive(Clone, Copy, Debug, PartialEq, Eq, Structural)]
pub enum SensorState {
    Idle,
    Discharging,
}

/// Pull resistor setting of a GPIO pin.
#[derive(Clone, Copy, Debug, PartialEq, Eq, Structural)]
pub enum FloatingState {
    PullUp,
    PullDown,
    PullNone,
}

/// Configuration of a GPIO pin as the pin reports it.
#[derive(Clone, Copy, Debug, PartialEq, Eq, Structural)]
pub enum Configuration {
    LowPower,
    Input,
    Output,
    InputOutput,
    Function,
    Other,
}

/// One operation on the sensing pin.
#[derive(Clone, Copy, Debug, PartialEq, Eq, Structural)]
pub enum PinOp {
    MakeOutput,
    SetHigh,
    MakeInput,
    SetFloatingState(FloatingState),
}

/// An alarm to set: it fires `dt` ticks after `reference`.
#[derive(Clone, Copy, Debug, PartialEq, Eq, Structural)]
pub struct AlarmRequest {
    pub reference: u32,
    pub dt: u32,
}

/// What the caller does once a measurement completed.
#[derive(Clone, Copy, Debug, PartialEq, Eq, Structural)]
pub struct DischargeOutcome {
    /// Set the deferred call, to tell the clients of a new touch state.
    pub schedule_notification: bool,
    /// Set this alarm for the next scan, if any.
    pub alarm: Option<AlarmRequest>,
}

/// Which clients the deferred call reaches.
#[derive(Clone, Copy, Debug, PartialEq, Eq, Structural)]
pub struct Notifications {
    /// Call `fired` on the plain interrupt client.
    pub fired: bool,
    /// Call `fired` with this value on the client with value.
    pub fired_with_value: Option<u32>,
}

/// The state of a sensor, as its contracts speak of it.
#[derive(Clone, Copy, Debug, PartialEq, Eq, Structural)]
pub struct SensorModel {
    /// Last touch state reported to the clients.
    pub last_is_touched: bool,
    pub state: SensorState,
    /// Whether the pad is currently considered touched.
    pub is_touched: bool,
    /// Discharge count above which the pad is touched.
    pub threshold: u32,
    pub has_client: bool,
    pub has_value_client: bool,
    /// Tick at which the next scan is due.
    pub next_scan: u32,
    /// Ticks between two scans.
    pub scan_interval: u32,
    /// Largest value the alarm's ticks take; they wrap after it.
    pub max_ticks: u32,
    pub pin_id: u32,
    /// Whether periodic scanning is on.
    pub enabled: bool,
    /// A disable request waits for the measurement under way to end.
    pub disable_pending: bool,
    /// At least one measurement ended since interrupts were enabled.
    pub measurement_completed: bool,
}

/// `a + b` in ticks that wrap after `max`.
pub open spec fn ticks_add(a: u32, b: u32, max: u32) -> u32 {
    ((a as int + b as int) % (max as int + 1)) as u32
}

impl SensorModel {
    pub open spec fn wf(self) -> bool {
        &&& self.threshold <= self.max_ticks
        &&& self.scan_interval <= self.max_ticks
        &&& self.next_scan <= self.max_ticks
    }

    pub open spec fn initial(threshold: u32, scan_interval: u32, max_ticks: u32) -> SensorModel {
        SensorModel {
            last_is_touched: false,
            state: SensorState::Idle,
            is_touched: false,
            threshold,
            has_client: false,
            has_value_client: false,
            next_scan: 0,
            scan_interval,
            max_ticks,
            pin_id: 0,
            enabled: false,
            disable_pending: false,
            measurement_completed: false,
        }
    }

    /// The sensor after scanning stopped.
    pub open spec fn disabled(self) -> SensorModel {
        SensorModel { enabled: false, state: SensorState::Idle, next_scan: self.max_ticks, ..self }
    }

    /// Enabling scanning: the new state, and whether a scan starts now.
    pub open spec fn enabled_now(self) -> (SensorModel, bool) {
        (SensorModel { enabled: true, ..self }, self.state == SensorState::Idle)
    }

    /// The sensor once the pin floats and the discharge is being timed.
    pub open spec fn discharging(self) -> SensorModel {
        SensorModel { state: SensorState::Discharging, ..self }
    }

    /// A measurement that counted `count` ended at tick `now`, with the
    /// deferred call pending or not: the new state and what to do.
    pub open spec fn discharged(self, count: u32, now: u32, deferred_pending: bool) -> (
        SensorModel,
        DischargeOutcome,
    ) {
        let touched = count > self.threshold;
        let changed = touched != self.last_is_touched;
        let m = SensorModel {
            is_touched: touched,
            last_is_touched: if changed {
                touched
            } else {
                self.last_is_touched
            },
            measurement_completed: true,
            state: SensorState::Idle,
            ..self
        };
        let notify = changed && !deferred_pending;
        if self.disable_pending {
            (
                SensorModel { disable_pending: false, ..m }.disabled(),
                DischargeOutcome { schedule_notification: notify, alarm: None },
            )
        } else {
            (
                SensorModel { next_scan: ticks_add(now, self.scan_interval, self.max_ticks), ..m },
                DischargeOutcome {
                    schedule_notification: notify,
                    alarm: Some(AlarmRequest { reference: now, dt: self.scan_interval }),
                },
            )
        }
    }

    /// Whether an alarm starts a scan.
    pub open spec fn scans_on_alarm(self) -> bool {
        self.state == SensorState::Idle && self.enabled
    }

    /// Interrupts were enabled: the new state, and whether a scan starts now.
    pub open spec fn interrupts_enabled(self) -> (SensorModel, bool) {
        SensorModel { measurement_completed: false, disable_pending: false, ..self }.enabled_now()
    }

    /// Interrupts were disabled through the plain interrupt interface.
    pub open spec fn interrupts_disabled(self) -> SensorModel {
        if !self.measurement_completed && self.state != SensorState::Idle {
            SensorModel { disable_pending: true, ..self }
        } else {
            self.disabled()
        }
    }

    /// Whom the deferred call notifies.
    pub open spec fn notifications(self) -> Notifications {
        Notifications {
            fired: self.has_client,
            fired_with_value: if self.has_value_client {
                Some(self.pin_id)
            } else {
                None
            },
        }
    }
}

/// A capacitive touch sensor.
pub struct CapacitiveTouchSensor {
    last_is_touched: bool,
    state: SensorState,
    is_touched: bool,
    threshold: u32,
    has_client: bool,
    has_value_client: bool,
    next_scan: u32,
    scan_interval: u32,
    max_ticks: u32,
    pin_id: u32,
    enabled: bool,
    disable_pending: bool,
    measurement_completed: bool,
}

impl View for CapacitiveTouchSensor {
    type V = SensorModel;

    closed spec fn view(&self) -> SensorModel {
        SensorModel {
            last_is_touched: self.last_is_touched,
            state: self.state,
            is_touched: self.is_touched,
            threshold: self.threshold,
            has_client: self.has_client,
            has_value_client: self.has_value_client,
            next_scan: self.next_scan,
            scan_interval: self.scan_interval,
            max_ticks: self.max_ticks,
            pin_id: self.pin_id,
            enabled: self.enabled,
            disable_pending: self.disable_pending,
            measurement_completed: self.measurement_completed,
        }
    }
}

impl CapacitiveTouchSensor {
    /// A sensor with the given threshold and scan interval, for an alarm whose
    /// ticks wrap after `max_ticks`. It starts idle, untouched and disabled.
    pub fn new(threshold: u32, scan_interval: u32, max_ticks: u32) -> (s: CapacitiveTouchSensor)
        requires
            threshold <= max_ticks,
            scan_interval <= max_ticks,
        ensures
            s@ == SensorModel::initial(threshold, scan_interval, max_ticks),
            s@.wf(),
    {
        CapacitiveTouchSensor {
            last_is_touched: false,
            state: SensorState::Idle,
            is_touched: false,
            threshold,
            has_client: false,
            has_value_client: false,
            next_scan: 0,
            scan_interval,
            max_ticks,
            pin_id: 0,
            enabled: false,
            disable_pending: false,
            measurement_completed: false,
        }
    }

    /// Sets the identifier reported with the sensor's value.
    pub fn set_pin_id(&mut self, id: u32)
        ensures
            final(self)@ == (SensorModel { pin_id: id, ..old(self)@ }),
    {
        self.pin_id = id;
    }

    /// The identifier reported with the sensor's value.
    pub fn get_pin_id(&self) -> (id: u32)
        ensures
            id == self@.pin_id,
    {
        self.pin_id
    }

    /// The pin operations that charge the pad.
    pub fn start_measurement(&self) -> (ops: [PinOp; 5])
        ensures
            ops@ == seq![
                PinOp::MakeOutput,
                PinOp::SetHigh,
                PinOp::MakeInput,
                PinOp::MakeOutput,
                PinOp::SetHigh,
            ],
    {
        [PinOp::MakeOutput, PinOp::SetHigh, PinOp::MakeInput, PinOp::MakeOutput, PinOp::SetHigh]
    }

    /// Starts timing the discharge: answers the pin operations that let the
    /// pin float. The caller then counts the reads for which the pin stays
    /// high and hands the count to `complete_discharge`.
    pub fn begin_discharge(&mut self) -> (ops: [PinOp; 2])
        ensures
            final(self)@ == old(self)@.discharging(),
            ops@ == seq![PinOp::MakeInput, PinOp::SetFloatingState(FloatingState::PullNone)],
    {
        self.state = SensorState::Discharging;
        [PinOp::MakeInput, PinOp::SetFloatingState(FloatingState::PullNone)]
    }

    /// Ends a measurement: `count` reads saw the pin high, `now` is the
    /// alarm's current tick and `deferred_pending` tells whether the deferred
    /// call is already pending.
    pub fn complete_discharge(&mut self, count: u32, now: u32, deferred_pending: bool) -> (out:
        DischargeOutcome)
        requires
            old(self)@.wf(),
            now <= old(self)@.max_ticks,
        ensures
            final(self)@.wf(),
            final(self)@ == old(self)@.discharged(count, now, deferred_pending).0,
            out == old(self)@.discharged(count, now, deferred_pending).1,
    {
        let was_touched = self.last_is_touched;
        let is_touched = count > self.threshold;
        self.is_touched = is_touched;
        let mut notify = false;
        // Only tell the clients when the state changed.
        if is_touched != was_touched {
            self.last_is_touched = is_touched;
            if !deferred_pending {
                notify = true;
            }
        }
        self.measurement_completed = true;
        self.state = SensorState::Idle;
        if self.disable_pending {
            self.disable_pending = false;
            self.disable();
            DischargeOutcome { schedule_notification: notify, alarm: None }
        } else {
            let next = Self::wrapping_add(now, self.scan_interval, self.max_ticks);
            self.next_scan = next;
            DischargeOutcome {
                schedule_notification: notify,
                alarm: Some(AlarmRequest { reference: now, dt: self.scan_interval }),
            }
        }
    }

    fn wrapping_add(a: u32, b: u32, max: u32) -> (r: u32)
        ensures
            r == ticks_add(a, b, max),
            r <= max,
    {
        let m: u64 = max as u64 + 1;
        let s: u64 = a as u64 + b as u64;
        let r: u64 = s % m;
        assert(r < m) by (nonlinear_arith)
            requires
                r == s % m,
                m > 0,
        ;
        r as u32
    }

    /// Turns scanning on; answers whether a scan starts now (the sensor was
    /// idle), in which case the caller performs `start_measurement`,
    /// `begin_discharge` and `complete_discharge`.
    pub fn enable(&mut self) -> (scan: bool)
        ensures
            final(self)@ == old(self)@.enabled_now().0,
            scan == old(self)@.enabled_now().1,
    {
        self.enabled = true;
        self.state == SensorState::Idle
    }

    /// Turns scanning off.
    pub fn disable(&mut self)
        ensures
            final(self)@ == old(self)@.disabled(),
    {
        self.enabled = false;
        self.state = SensorState::Idle;
        self.next_scan = self.max_ticks;
    }

    /// The alarm fired; answers whether a scan starts now.
    pub fn alarm(&self) -> (scan: bool)
        ensures
            scan == self@.scans_on_alarm(),
    {
        match self.state {
            SensorState::Discharging => false,
            SensorState::Idle => self.enabled,
        }
    }

    /// Whether the pad is touched.
    pub fn read(&self) -> (b: bool)
        ensures
            b == self@.is_touched,
    {
        self.is_touched
    }

    /// Setting the sensor as an output does nothing.
    pub fn set(&self) {
    }

    /// Clearing the sensor as an output does nothing.
    pub fn clear(&self) {
    }

    /// Toggling does nothing and answers the touch state.
    pub fn toggle(&self) -> (b: bool)
        ensures
            b == self@.is_touched,
    {
        self.read()
    }

    /// The sensor is always an input.
    pub fn configuration(&self) -> (c: Configuration)
        ensures
            c == Configuration::Input,
    {
        Configuration::Input
    }

    /// The sensor stays an input.
    pub fn make_output(&self) -> (c: Configuration)
        ensures
            c == Configuration::Input,
    {
        Configuration::Input
    }

    /// The sensor stays an input.
    pub fn disable_output(&self) -> (c: Configuration)
        ensures
            c == Configuration::Input,
    {
        Configuration::Input
    }

    /// The sensor stays an input.
    pub fn make_input(&self) -> (c: Configuration)
        ensures
            c == Configuration::Input,
    {
        Configuration::Input
    }

    /// The sensor stays an input.
    pub fn disable_input(&self) -> (c: Configuration)
        ensures
            c == Configuration::Input,
    {
        Configuration::Input
    }

    /// Going to low power stops scanning.
    pub fn deactivate_to_low_power(&mut self)
        ensures
            final(self)@ == old(self)@.disabled(),
    {
        self.disable();
    }

    /// The pull setting is handed on to the sensing pin.
    pub fn set_floating_state(&self, state: FloatingState) -> (op: PinOp)
        ensures
            op == PinOp::SetFloatingState(state),
    {
        PinOp::SetFloatingState(state)
    }

    /// The sensor reports no pull resistor.
    pub fn floating_state(&self) -> (f: FloatingState)
        ensures
            f == FloatingState::PullNone,
    {
        FloatingState::PullNone
    }

    /// Registers the plain interrupt client.
    pub fn set_client(&mut self)
        ensures
            final(self)@ == (SensorModel { has_client: true, ..old(self)@ }),
    {
        self.has_client = true;
    }

    /// Registers the interrupt client that takes a value.
    pub fn set_value_client(&mut self)
        ensures
            final(self)@ == (SensorModel { has_value_client: true, ..old(self)@ }),
    {
        self.has_value_client = true;
    }

    /// Enables interrupts (for either interface): answers whether a scan
    /// starts now.
    pub fn enable_interrupts(&mut self) -> (scan: bool)
        ensures
            final(self)@ == old(self)@.interrupts_enabled().0,
            scan == old(self)@.interrupts_enabled().1,
    {
        self.measurement_completed = false;
        self.disable_pending = false;
        self.enable()
    }

    /// Enables interrupts through the interface with values; this always
    /// succeeds. The first component answers whether a scan starts now.
    pub fn enable_value_interrupts(&mut self) -> (r: (bool, Result<(), ErrorCode>))
        ensures
            final(self)@ == old(self)@.interrupts_enabled().0,
            r.0 == old(self)@.interrupts_enabled().1,
            r.1 is Ok,
    {
        let scan = self.enable_interrupts();
        (scan, Ok(()))
    }

    /// Disables interrupts through the plain interface: a measurement under
    /// way finishes first.
    pub fn disable_interrupts(&mut self)
        ensures
            final(self)@ == old(self)@.interrupts_disabled(),
    {
        if !self.measurement_completed && self.state != SensorState::Idle {
            self.disable_pending = true;
        } else {
            self.disable();
        }
    }

    /// Disables interrupts through the interface with values: at once.
    pub fn disable_value_interrupts(&mut self)
        ensures
            final(self)@ == old(self)@.disabled(),
    {
        self.disable();
    }

    /// No interrupt is ever pending.
    pub fn is_pending(&self) -> (b: bool)
        ensures
            !b,
    {
        false
    }

    /// The value reported with an interrupt: the pin identifier.
    pub fn value(&self) -> (v: u32)
        ensures
            v == self@.pin_id,
    {
        self.pin_id
    }

    /// Sets the value reported with an interrupt.
    pub fn set_value(&mut self, value: u32)
        ensures
            final(self)@ == (SensorModel { pin_id: value, ..old(self)@ }),
    {
        self.pin_id = value;
    }

    /// The deferred call ran: answers whom to notify.
    pub fn handle_deferred_call(&self) -> (n: Notifications)
        ensures
            n == self@.notifications(),
    {
        Notifications {
            fired: self.has_client,
            fired_with_value: if self.has_value_client {
                Some(self.pin_id)
            } else {
                None
            },
        }
    }

    /// The sensor as a client of another pin: nothing to do.
    pub fn fired(&self, _value: u32) {
    }

    /// One read of the pin while the discharge is timed: a pin still high
    /// adds one to `count` and the timing goes on (`Some`); a pin gone low
    /// ends it (`None`), `count` being the discharge count. The count must
    /// not overflow.
    pub fn discharge_read(count: u32, pin_high: bool) -> (next: Option<u32>)
        requires
            pin_high ==> count < u32::MAX,
        ensures
            pin_high ==> next == Some((count + 1) as u32),
            !pin_high ==> next is None,
    {
        if pin_high {
            Some(count + 1)
        } else {
            None
        }
    }

    /// Largest value the alarm's ticks take.
    pub fn max_ticks(&self) -> (m: u32)
        ensures
            m == self@.max_ticks,
    {
        self.max_ticks
    }

    /// Tick at which the next scan is due.
    pub fn next_scan(&self) -> (t: u32)
        ensures
            t == self@.next_scan,
    {
        self.next_scan
    }

    /// Whether periodic scanning is on.
    pub fn is_enabled(&self) -> (b: bool)
        ensures
            b == self@.enabled,
    {
        self.enabled
    }
}

} // verus!

verus! {

/// After a measurement the pad counts as touched exactly when the discharge
/// count exceeded the threshold.
pub proof fn law_touch_follows_count(m: SensorModel, count: u32, now: u32, deferred_pending: bool)
    ensures
        m.discharged(count, now, deferred_pending).0.is_touched == (count > m.threshold),
        m.discharged(count, now, deferred_pending).0.state == SensorState::Idle,
        m.discharged(count, now, deferred_pending).0.measurement_completed,
{
}

/// Clients are told only of changes: a notification is scheduled only when
/// the touch state differs from the one last reported, and a second
/// measurement with the same outcome schedules none.
pub proof fn law_notify_on_change_only(
    m: SensorModel,
    c1: u32,
    n1: u32,
    p1: bool,
    c2: u32,
    n2: u32,
    p2: bool,
)
    requires
        (c1 > m.threshold) == (c2 > m.threshold),
    ensures
        m.discharged(c1, n1, p1).1.schedule_notification ==> (c1 > m.threshold)
            != m.last_is_touched,
        !m.discharged(c1, n1, p1).0.discharged(c2, n2, p2).1.schedule_notification,
        m.discharged(c1, n1, p1).0.last_is_touched == (c1 > m.threshold),
{
}

/// A disabled sensor does not scan when its alarm fires.
pub proof fn law_disabled_does_not_scan(m: SensorModel)
    ensures
        !m.disabled().scans_on_alarm(),
        m.disabled().next_scan == m.max_ticks,
{
}

/// While scanning is on, each measurement sets the alarm one scan interval
/// after it ended, and that alarm starts the next scan.
pub proof fn law_periodic_scan(m: SensorModel, count: u32, now: u32, deferred_pending: bool)
    requires
        m.wf(),
        m.enabled,
        !m.disable_pending,
        now <= m.max_ticks,
    ensures
        m.discharged(count, now, deferred_pending).1.alarm == Some(
            AlarmRequest { reference: now, dt: m.scan_interval },
        ),
        m.discharged(count, now, deferred_pending).0.next_scan == ticks_add(
            now,
            m.scan_interval,
            m.max_ticks,
        ),
        m.discharged(count, now, deferred_pending).0.scans_on_alarm(),
{
}

/// Disabling interrupts during a measurement lets it finish, and then
/// scanning stops with no alarm set.
pub proof fn law_disable_waits_for_measurement(
    m: SensorModel,
    count: u32,
    now: u32,
    deferred_pending: bool,
)
    requires
        !m.measurement_completed,
    ensures
        m.discharging().interrupts_disabled().disable_pending,
        m.discharging().interrupts_disabled().discharged(count, now, deferred_pending).1.alarm
            is None,
        !m.discharging().interrupts_disabled().discharged(count, now, deferred_pending).0.enabled,
        !m.discharging().interrupts_disabled().discharged(
            count,
            now,
            deferred_pending,
        ).0.disable_pending,
{
}

/// Enabling interrupts on an idle sensor starts a scan and turns scanning on.
pub proof fn law_enable_starts_scan(m: SensorModel)
    requires
        m.state == SensorState::Idle,
    ensures
        m.interrupts_enabled().1,
        m.interrupts_enabled().0.enabled,
        !m.interrupts_enabled().0.disable_pending,
{
}

/// Every operation keeps the alarm values within the alarm's ticks.
pub proof fn law_ticks_stay_in_range(m: SensorModel, count: u32, now: u32, deferred_pending: bool)
    requires
        m.wf(),
        now <= m.max_ticks,
    ensures
        m.discharged(count, now, deferred_pending).0.wf(),
        m.disabled().wf(),
        m.discharging().wf(),
        m.enabled_now().0.wf(),
        m.interrupts_enabled().0.wf(),
        m.interrupts_disabled().wf(),
{
    assert(ticks_add(now, m.scan_interval, m.max_ticks) <= m.max_ticks) by (nonlinear_arith)
        requires
            m.max_ticks >= 0,
    {
        let s = now as int + m.scan_interval as int;
        let d = m.max_ticks as int + 1;
        assert(0 <= s % d < d);
    }
}

/// The deferred call reaches each registered client on its own: the plain
/// client is told whenever it is registered, whether or not a client with
/// value is, and the client with value gets the pin identifier whenever it
/// is registered.
pub proof fn law_clients_told_independently(m: SensorModel)
    ensures
        m.notifications().fired == m.has_client,
        m.has_value_client ==> m.notifications().fired_with_value == Some(m.pin_id),
        !m.has_value_client ==> m.notifications().fired_with_value is None,
        (SensorModel { has_client: true, ..m }).notifications().fired,
        (SensorModel { has_value_client: true, ..m }).notifications().fired_with_value == Some(
            m.pin_id,
        ),
{
}

/// Disabling interrupts while no measurement is under way stops scanning at
/// once: the sensor is left idle and disabled, with nothing pending, and no
/// alarm starts a scan. Only a measurement under way that has not finished
/// defers the disable, and then scanning goes on until it ends.
pub proof fn law_disable_when_idle_is_immediate(m: SensorModel)
    ensures
        m.state == SensorState::Idle ==> !m.interrupts_disabled().enabled
            && m.interrupts_disabled().state == SensorState::Idle
            && m.interrupts_disabled().next_scan == m.max_ticks
            && m.interrupts_disabled().disable_pending == m.disable_pending
            && !m.interrupts_disabled().scans_on_alarm(),
        m.measurement_completed ==> !m.interrupts_disabled().enabled
            && m.interrupts_disabled().state == SensorState::Idle,
        (m.state == SensorState::Discharging && !m.measurement_completed) ==> m.interrupts_disabled().disable_pending
            && m.interrupts_disabled().enabled == m.enabled
            && m.interrupts_disabled().state == SensorState::Discharging,
{
}

/// An alarm starts a scan exactly when the sensor is enabled and idle: never
/// while a measurement is under way, so measurements do not overlap.
pub proof fn law_alarm_scans_only_when_idle(m: SensorModel)
    ensures
        m.state == SensorState::Discharging ==> !m.scans_on_alarm(),
        m.state == SensorState::Idle ==> (m.scans_on_alarm() == m.enabled),
        !m.discharging().scans_on_alarm(),
        !m.enabled ==> !m.scans_on_alarm(),
{
}

/// Enabling scanning starts a scan exactly when no measurement is under way.
pub proof fn law_enable_scans_only_when_idle(m: SensorModel)
    ensures
        m.enabled_now().0.enabled,
        m.enabled_now().1 == (m.state == SensorState::Idle),
        !m.discharging().enabled_now().1,
        !m.discharging().interrupts_enabled().1,
{
}

} // verus!
