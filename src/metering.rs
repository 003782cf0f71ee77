use vstd::prelude::*;

use crate::message::{extract, extract_spec, DecodedMessage, ExtractedUpdate};

verus! {

/// Feed-in switches on when the power drops below this value (0.1 W units).
pub const FEED_IN_ON_BELOW: i32 = -500;

/// Feed-in switches off when the power rises above this value (0.1 W units).
pub const FEED_IN_OFF_ABOVE: i32 = -100;

/// Minimum time between two throttled reading publications, in milliseconds.
pub const PUBLISH_INTERVAL_MS: u64 = 60000;

/// The long-lived metering state of the ingestion pipeline.
///
/// Times are milliseconds of a monotonic clock chosen by the caller.
#[derive(Clone, Copy, Debug, PartialEq, Eq)]
pub struct SensorData {
    /// Current instantaneous active power, 0.1 W (negative means export).
    pub wirkleistung: i32,
    /// Power of the previous tick, used for the trapezoid rule.
    pub wirkleistung_alt: i32,
    /// Cumulative import-energy register, 0.1 Wh.
    pub zaehlerstand: u64,
    /// Previous counter reading; 0 means no reading seen yet.
    pub zaehlerstand_alt: u64,
    /// Counter increase between the last two readings.
    pub zaehlerstand_diff: u32,
    /// Accumulated exported energy, (0.1 W) * ms.
    pub einspeisung: u64,
    /// Hysteresis-debounced export-direction flag.
    pub einspeisung_sts: bool,
    /// Time of the previous integration step.
    pub last_integration_time: Option<u64>,
    /// Time of the last throttled publication.
    pub last_mqtt_publish: Option<u64>,
}

impl SensorData {
    /// The state at process start: all zero, feed-in inactive, no tick seen.
    pub fn new() -> (r: SensorData)
        ensures
            r == initial_state(),
    {
        SensorData {
            wirkleistung: 0,
            wirkleistung_alt: 0,
            zaehlerstand: 0,
            zaehlerstand_alt: 0,
            zaehlerstand_diff: 0,
            einspeisung: 0,
            einspeisung_sts: false,
            last_integration_time: None,
            last_mqtt_publish: None,
        }
    }
}

/// The state at process start.
pub open spec fn initial_state() -> SensorData {
    SensorData {
        wirkleistung: 0,
        wirkleistung_alt: 0,
        zaehlerstand: 0,
        zaehlerstand_alt: 0,
        zaehlerstand_diff: 0,
        einspeisung: 0,
        einspeisung_sts: false,
        last_integration_time: None,
        last_mqtt_publish: None,
    }
}

/// The counter increase from `prev` to `val`: zero on the first reading
/// (`prev == 0`) and on a decrease, capped at `u32::MAX`.
pub open spec fn counter_delta(prev: u64, val: u64) -> u32 {
    if prev == 0 || val <= prev {
        0
    } else if val - prev > u32::MAX {
        u32::MAX
    } else {
        (val - prev) as u32
    }
}

/// The state after a counter reading `val`.
pub open spec fn after_counter(s: SensorData, val: u64) -> SensorData {
    SensorData {
        zaehlerstand: val,
        zaehlerstand_alt: val,
        zaehlerstand_diff: counter_delta(s.zaehlerstand_alt, val),
        ..s
    }
}

/// Records a counter reading: the first one only seeds the baseline, later ones
/// yield the increase since the previous reading, never a wrapped value.
pub fn update_zaehlerstand(sensor: &mut SensorData, val: u64)
    ensures
        *final(sensor) == after_counter(*old(sensor), val),
{
    let prev = sensor.zaehlerstand_alt;
    let delta: u32 = if prev == 0 || val <= prev {
        0
    } else if val - prev > u32::MAX as u64 {
        u32::MAX
    } else {
        (val - prev) as u32
    };
    sensor.zaehlerstand_diff = delta;
    sensor.zaehlerstand_alt = val;
    sensor.zaehlerstand = val;
}


/// The feed-in flag after observing `power` while the flag was `active`.
pub open spec fn feed_in_next(active: bool, power: int) -> bool {
    if !active && power < FEED_IN_ON_BELOW {
        true
    } else if active && power > FEED_IN_OFF_ABOVE {
        false
    } else {
        active
    }
}

/// The exported part of a power reading: its negation when negative, else 0.
pub open spec fn export_part(power: int) -> int {
    if power < 0 {
        -power
    } else {
        0
    }
}

/// Trapezoid-rule estimate of exported energy between two samples `dt_ms` apart.
pub open spec fn trapezoid(prev: int, cur: int, dt_ms: int) -> int {
    ((export_part(prev) + export_part(cur)) / 2) * dt_ms
}

/// Milliseconds from `then` to `now`; zero if the clock went backwards.
pub open spec fn elapsed(then: u64, now: u64) -> int {
    if now >= then {
        now - then
    } else {
        0
    }
}

/// `x` capped at `u64::MAX`.
pub open spec fn cap_u64(x: int) -> u64 {
    if x > u64::MAX {
        u64::MAX
    } else {
        x as u64
    }
}

/// Whether a throttled publication is due at `now`.
pub open spec fn publish_due(last: Option<u64>, now: u64) -> bool {
    match last {
        None => true,
        Some(t) => elapsed(t, now) > PUBLISH_INTERVAL_MS,
    }
}

/// The accumulated export energy after a tick at `now`.
pub open spec fn accumulated_export(s: SensorData, now: u64) -> u64 {
    match s.last_integration_time {
        None => s.einspeisung,
        Some(t) => cap_u64(
            s.einspeisung + trapezoid(s.wirkleistung_alt as int, s.wirkleistung as int, elapsed(t, now)),
        ),
    }
}

/// The state after a tick at `now`, once the readings of the tick are applied.
pub open spec fn after_tick(s: SensorData, now: u64) -> SensorData {
    SensorData {
        einspeisung_sts: feed_in_next(s.einspeisung_sts, s.wirkleistung as int),
        einspeisung: accumulated_export(s, now),
        last_integration_time: Some(now),
        wirkleistung_alt: s.wirkleistung,
        last_mqtt_publish: if publish_due(s.last_mqtt_publish, now) {
            Some(now)
        } else {
            s.last_mqtt_publish
        },
        ..s
    }
}

/// What a tick asks the caller to do.
#[derive(Clone, Copy, Debug, PartialEq, Eq)]
pub struct SideEffects {
    /// The archive gets a new sample.
    pub should_persist: bool,
    /// A retained feed-in state message: `Some(true)` for "ON", `Some(false)` for "OFF".
    pub feed_in_change: Option<bool>,
    /// The readings message is published this tick.
    pub should_publish_throttled: bool,
}

/// The side effects of a tick at `now` from state `s`.
pub open spec fn tick_effects(s: SensorData, now: u64) -> SideEffects {
    let next = feed_in_next(s.einspeisung_sts, s.wirkleistung as int);
    SideEffects {
        should_persist: true,
        feed_in_change: if next != s.einspeisung_sts {
            Some(next)
        } else {
            None
        },
        should_publish_throttled: publish_due(s.last_mqtt_publish, now),
    }
}

/// Exported energy between two power samples `dt_ms` apart, capped at `u64::MAX`.
pub fn trapezoid_export(prev: i32, cur: i32, dt_ms: u64) -> (r: u64)
    ensures
        r == cap_u64(trapezoid(prev as int, cur as int, dt_ms as int)),
{
    let a: u64 = if prev < 0 { (0i64 - prev as i64) as u64 } else { 0 };
    let b: u64 = if cur < 0 { (0i64 - cur as i64) as u64 } else { 0 };
    let avg: u64 = (a + b) / 2;
    match avg.checked_mul(dt_ms) {
        Some(v) => v,
        None => u64::MAX,
    }
}

/// One step of the metering state machine after the tick's readings are
/// applied: feed-in hysteresis, trapezoid integration of exported power, and
/// the throttling decision for the readings publication.
pub fn handle_logic_update(sensor: &mut SensorData, now: u64) -> (r: SideEffects)
    ensures
        *final(sensor) == after_tick(*old(sensor), now),
        r == tick_effects(*old(sensor), now),
{
    let mut change: Option<bool> = None;
    if sensor.wirkleistung < FEED_IN_ON_BELOW && !sensor.einspeisung_sts {
        sensor.einspeisung_sts = true;
        change = Some(true);
    } else if sensor.wirkleistung > FEED_IN_OFF_ABOVE && sensor.einspeisung_sts {
        sensor.einspeisung_sts = false;
        change = Some(false);
    }
    if let Some(t) = sensor.last_integration_time {
        let dt: u64 = if now >= t { now - t } else { 0 };
        let gained = trapezoid_export(sensor.wirkleistung_alt, sensor.wirkleistung, dt);
        sensor.einspeisung = match sensor.einspeisung.checked_add(gained) {
            Some(v) => v,
            None => u64::MAX,
        };
    }
    sensor.last_integration_time = Some(now);
    sensor.wirkleistung_alt = sensor.wirkleistung;
    let due = match sensor.last_mqtt_publish {
        None => true,
        Some(t) => {
            let dt: u64 = if now >= t { now - t } else { 0 };
            dt > PUBLISH_INTERVAL_MS
        },
    };
    if due {
        sensor.last_mqtt_publish = Some(now);
    }
    SideEffects { should_persist: true, feed_in_change: change, should_publish_throttled: due }
}


/// The state once the readings of `u` are recorded: the counter first, then the power.
pub open spec fn with_readings(s: SensorData, u: ExtractedUpdate) -> SensorData {
    let c = match u.counter {
        Some(v) => after_counter(s, v),
        None => s,
    };
    match u.power {
        Some(p) => SensorData { wirkleistung: p, ..c },
        None => c,
    }
}

/// Whether an update carries any register of interest.
pub open spec fn has_readings(u: ExtractedUpdate) -> bool {
    u.power is Some || u.counter is Some
}

/// The state after applying `u` at `now`.
pub open spec fn apply_state(s: SensorData, u: ExtractedUpdate, now: u64) -> SensorData {
    if has_readings(u) {
        after_tick(with_readings(s, u), now)
    } else {
        s
    }
}

/// The side effects of applying `u` at `now`; none for an update without readings.
pub open spec fn apply_effects(s: SensorData, u: ExtractedUpdate, now: u64) -> Option<SideEffects> {
    if has_readings(u) {
        Some(tick_effects(with_readings(s, u), now))
    } else {
        None
    }
}

/// Applies one extracted update at time `now`. An update without readings
/// changes nothing and asks for nothing.
pub fn apply_update(sensor: &mut SensorData, update: ExtractedUpdate, now: u64) -> (r: Option<SideEffects>)
    ensures
        *final(sensor) == apply_state(*old(sensor), update, now),
        r == apply_effects(*old(sensor), update, now),
{
    if update.power.is_none() && update.counter.is_none() {
        return None;
    }
    if let Some(v) = update.counter {
        update_zaehlerstand(sensor, v);
    }
    if let Some(p) = update.power {
        sensor.wirkleistung = p;
    }
    Some(handle_logic_update(sensor, now))
}

/// Runs one decoded message through extraction and the state machine.
pub fn process_sml_messages(sensor: &mut SensorData, msg: &DecodedMessage, now: u64) -> (r: Option<SideEffects>)
    ensures
        *final(sensor) == apply_state(*old(sensor), extract_spec(msg.entries@), now),
        r == apply_effects(*old(sensor), extract_spec(msg.entries@), now),
{
    let update = extract(msg);
    apply_update(sensor, update, now)
}

} // verus!
