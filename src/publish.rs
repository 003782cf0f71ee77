use vstd::prelude::*;
use vstd::string::StringExecFns;

use crate::metering::{SensorData, SideEffects};
use crate::text::{push_tenths, push_tenths_unsigned, tenths_text};

verus! {

/// (0.1 W) * ms in one tenth of a watt-hour.
pub const EXPORT_PER_TENTH_WH: u64 = 3600000;

/// Divisor from accumulated export, (0.1 W) * ms, to the archive's export counter.
pub const ARCHIVE_EXPORT_DIVISOR: u64 = 2000000;

/// Topic of the retained feed-in state.
pub const FEED_STATE_TOPIC: &'static str = "homeassistant/binary_sensor/sml/feed/state";

/// Topic of the throttled readings.
pub const READINGS_TOPIC: &'static str = "homeassistant/sensor/sml/zaehler/state";

/// Topic of the instantaneous power.
pub const POWER_TOPIC: &'static str = "homeassistant/sensor/sml/wirkleistung/state";

/// Discovery topics and payloads, one pair per published sensor.
pub const POWER_CONFIG_TOPIC: &'static str = "homeassistant/sensor/sml/power/config";

pub const POWER_CONFIG: &'static str = "{\"unique_id\": \"sml.power\",\"device_class\": \"power\", \"name\": \"Wirkleistung\", \"state_topic\": \"homeassistant/sensor/sml/wirkleistung/state\",\"unit_of_measurement\": \"W\"}";

pub const IMPORT_CONFIG_TOPIC: &'static str = "homeassistant/sensor/sml/bezug/config";

pub const IMPORT_CONFIG: &'static str = "{\"unique_id\": \"sml.bezug\",\"state_class\": \"total_increasing\", \"device_class\": \"energy\", \"name\": \"Netzbezug\", \"state_topic\": \"homeassistant/sensor/sml/zaehler/state\",\"unit_of_measurement\": \"Wh\", \"value_template\": \"{{ value_json.bezug}}\"}";

pub const EXPORT_CONFIG_TOPIC: &'static str = "homeassistant/sensor/sml/einspeisung/config";

pub const EXPORT_CONFIG: &'static str = "{\"unique_id\": \"sml.einspeisung\",\"state_class\": \"total_increasing\", \"device_class\": \"energy\", \"name\": \"Netzeinspeisung\", \"state_topic\": \"homeassistant/sensor/sml/zaehler/state\",\"unit_of_measurement\": \"Wh\", \"value_template\": \"{{ value_json.einspeisung}}\"}";

pub const FEED_CONFIG_TOPIC: &'static str = "homeassistant/binary_sensor/sml/feed/config";

pub const FEED_CONFIG: &'static str = "{\"unique_id\": \"sml.feed\", \"device_class\": \"power\", \"name\": \"Einspeisung\", \"state_topic\": \"homeassistant/binary_sensor/sml/feed/state\"}";

/// A message for the message bus.
#[derive(Clone, Debug, PartialEq, Eq)]
pub struct BusMessage {
    pub topic: String,
    pub payload: String,
    pub retain: bool,
}

/// The contents of a bus message: topic, payload, retain flag.
pub open spec fn message_view(m: BusMessage) -> (Seq<char>, Seq<char>, bool) {
    (m.topic@, m.payload@, m.retain)
}

/// The contents of a list of bus messages.
pub open spec fn messages_view(ms: Seq<BusMessage>) -> Seq<(Seq<char>, Seq<char>, bool)> {
    ms.map_values(|m: BusMessage| message_view(m))
}

fn bus_message(topic: &str, payload: String, retain: bool) -> (r: BusMessage)
    ensures
        message_view(r) == (topic@, payload@, retain),
{
    BusMessage { topic: topic.to_owned(), payload, retain }
}

/// Text of the feed-in state message.
pub open spec fn feed_state_text(active: bool) -> Seq<char> {
    if active {
        "ON"@
    } else {
        "OFF"@
    }
}

/// Text of the power message: the power in watts with one decimal place.
pub open spec fn power_text(power: i32) -> Seq<char> {
    tenths_text(power as int)
}

/// Text of the readings message: import total and export total in watt-hours
/// with one decimal place, stamped with `time`.
pub open spec fn readings_text(s: SensorData, time: Seq<char>) -> Seq<char> {
    "{\"Time\":\""@ + time + "\",\"bezug\":"@ + tenths_text(s.zaehlerstand as int)
        + ",\"einspeisung\":"@ + tenths_text((s.einspeisung / EXPORT_PER_TENTH_WH) as int) + "}"@
}

/// The power message text.
pub fn power_payload(power: i32) -> (r: String)
    ensures
        r@ == power_text(power),
{
    let mut s = String::new();
    push_tenths(&mut s, power as i64);
    s
}

/// The readings message text.
pub fn readings_payload(sensor: &SensorData, time: &str) -> (r: String)
    ensures
        r@ == readings_text(*sensor, time@),
{
    let mut s = String::new();
    s.append("{\"Time\":\"");
    s.append(time);
    s.append("\",\"bezug\":");
    push_tenths_unsigned(&mut s, sensor.zaehlerstand);
    s.append(",\"einspeisung\":");
    push_tenths_unsigned(&mut s, sensor.einspeisung / EXPORT_PER_TENTH_WH);
    s.append("}");
    s
}

/// The bus messages of one tick, in order: the retained feed-in state when it
/// changed, the readings when the throttle allows them, and the power always.
pub open spec fn tick_messages_spec(s: SensorData, e: SideEffects, time: Seq<char>) -> Seq<(Seq<char>, Seq<char>, bool)> {
    let feed: Seq<(Seq<char>, Seq<char>, bool)> = match e.feed_in_change {
        Some(active) => seq![(FEED_STATE_TOPIC@, feed_state_text(active), true)],
        None => Seq::empty(),
    };
    let readings: Seq<(Seq<char>, Seq<char>, bool)> = if e.should_publish_throttled {
        seq![(READINGS_TOPIC@, readings_text(s, time), false)]
    } else {
        Seq::empty()
    };
    feed + readings + seq![(POWER_TOPIC@, power_text(s.wirkleistung), false)]
}

/// Builds the bus messages of a tick from the updated state and its side effects.
pub fn tick_messages(sensor: &SensorData, effects: &SideEffects, time: &str) -> (r: Vec<BusMessage>)
    ensures
        messages_view(r@) == tick_messages_spec(*sensor, *effects, time@),
{
    let mut out: Vec<BusMessage> = Vec::new();
    match effects.feed_in_change {
        Some(active) => {
            let text = if active { "ON" } else { "OFF" };
            out.push(bus_message(FEED_STATE_TOPIC, text.to_owned(), true));
        },
        None => {},
    }
    if effects.should_publish_throttled {
        out.push(bus_message(READINGS_TOPIC, readings_payload(sensor, time), false));
    }
    out.push(bus_message(POWER_TOPIC, power_payload(sensor.wirkleistung), false));
    assert(messages_view(out@) =~= tick_messages_spec(*sensor, *effects, time@));
    out
}

/// The retained discovery messages published once at start-up.
pub open spec fn discovery_spec() -> Seq<(Seq<char>, Seq<char>, bool)> {
    seq![
        (POWER_CONFIG_TOPIC@, POWER_CONFIG@, true),
        (IMPORT_CONFIG_TOPIC@, IMPORT_CONFIG@, true),
        (EXPORT_CONFIG_TOPIC@, EXPORT_CONFIG@, true),
        (FEED_CONFIG_TOPIC@, FEED_CONFIG@, true),
    ]
}

/// The discovery messages that describe the published sensors.
pub fn discovery_messages() -> (r: Vec<BusMessage>)
    ensures
        messages_view(r@) == discovery_spec(),
{
    let mut out: Vec<BusMessage> = Vec::new();
    out.push(bus_message(POWER_CONFIG_TOPIC, POWER_CONFIG.to_owned(), true));
    out.push(bus_message(IMPORT_CONFIG_TOPIC, IMPORT_CONFIG.to_owned(), true));
    out.push(bus_message(EXPORT_CONFIG_TOPIC, EXPORT_CONFIG.to_owned(), true));
    out.push(bus_message(FEED_CONFIG_TOPIC, FEED_CONFIG.to_owned(), true));
    assert(messages_view(out@) =~= discovery_spec());
    out
}

/// A copy of the displayable state for live subscribers.
#[derive(Clone, Copy, Debug, PartialEq, Eq)]
pub struct Snapshot {
    /// Instantaneous power, 0.1 W.
    pub instant_power: i32,
    /// Counter increase between the last two readings, 0.1 Wh.
    pub interval_delta: u32,
    /// Import counter, 0.1 Wh.
    pub cumulative_energy: u64,
    pub feed_in_active: bool,
}

/// The snapshot of `sensor` for live subscribers.
pub fn snapshot(sensor: &SensorData) -> (r: Snapshot)
    ensures
        r == (Snapshot {
            instant_power: sensor.wirkleistung,
            interval_delta: sensor.zaehlerstand_diff,
            cumulative_energy: sensor.zaehlerstand,
            feed_in_active: sensor.einspeisung_sts,
        }),
{
    Snapshot {
        instant_power: sensor.wirkleistung,
        interval_delta: sensor.zaehlerstand_diff,
        cumulative_energy: sensor.zaehlerstand,
        feed_in_active: sensor.einspeisung_sts,
    }
}

/// One archive sample: import counter, export counter and power gauge.
#[derive(Clone, Copy, Debug, PartialEq, Eq)]
pub struct ArchiveSample {
    pub bezug: u64,
    pub einspeisung: u64,
    pub wirkleistung: i32,
}

/// The archive sample written after each tick.
pub fn update_rrd(sensor: &SensorData) -> (r: ArchiveSample)
    ensures
        r == (ArchiveSample {
            bezug: sensor.zaehlerstand,
            einspeisung: sensor.einspeisung / ARCHIVE_EXPORT_DIVISOR,
            wirkleistung: sensor.wirkleistung,
        }),
{
    ArchiveSample {
        bezug: sensor.zaehlerstand,
        einspeisung: sensor.einspeisung / ARCHIVE_EXPORT_DIVISOR,
        wirkleistung: sensor.wirkleistung,
    }
}

} // verus!
