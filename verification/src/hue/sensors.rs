//! Sensors as the bridge reports them: reachability and battery from the configuration,
//! the last update and a one-line summary from the state.
use vstd::prelude::*;
use crate::hue::models::{RawHueSensor, Sensor};
use crate::json::{JsonNumber, JsonValue, get_member, member_value};
use crate::text::{decimal, decimal_string};

verus! {

/// The member `key` of an object value (`Value::get` with a string key).
pub open spec fn value_get(v: JsonValue, key: Seq<char>) -> Option<JsonValue> {
    match v {
        JsonValue::Object(members) => member_value(members@, key),
        _ => None,
    }
}

pub open spec fn as_bool(v: Option<JsonValue>) -> Option<bool> {
    match v {
        Some(JsonValue::Bool(b)) => Some(b),
        _ => None,
    }
}

/// `Value::as_i64`: an integer that fits `i64`.
pub open spec fn as_i64(v: Option<JsonValue>) -> Option<i64> {
    match v {
        Some(JsonValue::Number(JsonNumber::Unsigned(u))) => if u <= i64::MAX {
            Some(u as i64)
        } else {
            None
        },
        Some(JsonValue::Number(JsonNumber::Negative(i))) => Some(i),
        _ => None,
    }
}

pub open spec fn as_u64(v: Option<JsonValue>) -> Option<u64> {
    match v {
        Some(JsonValue::Number(JsonNumber::Unsigned(u))) => Some(u),
        _ => None,
    }
}

fn get<'a>(v: &'a JsonValue, key: &str) -> (r: Option<&'a JsonValue>)
    ensures
        match r {
            Some(x) => value_get(*v, key@) == Some(*x),
            None => value_get(*v, key@) is None,
        },
{
    match v {
        JsonValue::Object(members) => get_member(members, key),
        _ => None,
    }
}

fn get_bool(v: &JsonValue, key: &str) -> (r: Option<bool>)
    ensures
        r == as_bool(value_get(*v, key@)),
{
    match get(v, key) {
        Some(JsonValue::Bool(b)) => Some(*b),
        _ => None,
    }
}

fn get_i64(v: &JsonValue, key: &str) -> (r: Option<i64>)
    ensures
        r == as_i64(value_get(*v, key@)),
{
    match get(v, key) {
        Some(JsonValue::Number(JsonNumber::Unsigned(u))) => if *u <= 9223372036854775807u64 {
            Some(*u as i64)
        } else {
            None
        },
        Some(JsonValue::Number(JsonNumber::Negative(i))) => Some(*i),
        _ => None,
    }
}

/// What a sensor's state reports, in the order the summary looks for it.
#[derive(Clone, Copy, Debug, PartialEq, Eq, Structural)]
pub enum SensorReading {
    Presence(bool),
    Temperature(i64),
    Daylight(bool),
    Dark(bool),
    LightLevel(i64),
    ButtonEvent(i64),
}

/// The first of presence, temperature, daylight, darkness, light level and button event
/// that the state holds with the right type.
pub open spec fn reading_spec(state: JsonValue) -> Option<SensorReading> {
    if as_bool(value_get(state, "presence"@)) is Some {
        Some(SensorReading::Presence(as_bool(value_get(state, "presence"@))->0))
    } else if as_i64(value_get(state, "temperature"@)) is Some {
        Some(SensorReading::Temperature(as_i64(value_get(state, "temperature"@))->0))
    } else if as_bool(value_get(state, "daylight"@)) is Some {
        Some(SensorReading::Daylight(as_bool(value_get(state, "daylight"@))->0))
    } else if as_bool(value_get(state, "dark"@)) is Some {
        Some(SensorReading::Dark(as_bool(value_get(state, "dark"@))->0))
    } else if as_i64(value_get(state, "lightlevel"@)) is Some {
        Some(SensorReading::LightLevel(as_i64(value_get(state, "lightlevel"@))->0))
    } else if as_i64(value_get(state, "buttonevent"@)) is Some {
        Some(SensorReading::ButtonEvent(as_i64(value_get(state, "buttonevent"@))->0))
    } else {
        None
    }
}

/// The reading a sensor's state is summarised by.
pub fn sensor_reading(state: &JsonValue) -> (r: Option<SensorReading>)
    ensures
        r == reading_spec(*state),
{
    if let Some(b) = get_bool(state, "presence") {
        return Some(SensorReading::Presence(b));
    }
    if let Some(t) = get_i64(state, "temperature") {
        return Some(SensorReading::Temperature(t));
    }
    if let Some(b) = get_bool(state, "daylight") {
        return Some(SensorReading::Daylight(b));
    }
    if let Some(b) = get_bool(state, "dark") {
        return Some(SensorReading::Dark(b));
    }
    if let Some(n) = get_i64(state, "lightlevel") {
        return Some(SensorReading::LightLevel(n));
    }
    if let Some(n) = get_i64(state, "buttonevent") {
        return Some(SensorReading::ButtonEvent(n));
    }
    None
}

/// Decimal text of a signed integer.
pub open spec fn signed_decimal(n: int) -> Seq<char> {
    if n < 0 {
        "-"@ + decimal((-n) as nat)
    } else {
        decimal(n as nat)
    }
}

fn signed_decimal_string(n: i64) -> (r: String)
    ensures
        r@ == signed_decimal(n as int),
{
    if n < 0 {
        let magnitude = ((-(n + 1)) as u64) + 1;
        String::from_str("-").concat(decimal_string(magnitude).as_str())
    } else {
        decimal_string(n as u64)
    }
}

/// The summary text of a reading other than temperature, whose text is formatted from
/// the hundredths of a degree elsewhere.
pub open spec fn reading_text(reading: SensorReading) -> Option<Seq<char>> {
    match reading {
        SensorReading::Presence(p) => Some(if p {
            "Motion detected"@
        } else {
            "No motion"@
        }),
        SensorReading::Temperature(_) => None,
        SensorReading::Daylight(d) => Some(if d {
            "Daylight"@
        } else {
            "No daylight"@
        }),
        SensorReading::Dark(d) => Some(if d {
            "Dark"@
        } else {
            "Bright"@
        }),
        SensorReading::LightLevel(n) => Some("Light level "@ + signed_decimal(n as int)),
        SensorReading::ButtonEvent(n) => Some("Button event "@ + signed_decimal(n as int)),
    }
}

/// The summary of a reading; a temperature gets `temperature_text`.
pub fn reading_summary(reading: SensorReading, temperature_text: Option<String>) -> (r: Option<String>)
    ensures
        match reading {
            SensorReading::Temperature(_) => r == temperature_text,
            _ => match r {
                Some(t) => reading_text(reading) == Some(t@),
                None => false,
            },
        },
{
    match reading {
        SensorReading::Presence(p) => Some(
            if p {
                String::from_str("Motion detected")
            } else {
                String::from_str("No motion")
            },
        ),
        SensorReading::Temperature(_) => temperature_text,
        SensorReading::Daylight(d) => Some(
            if d {
                String::from_str("Daylight")
            } else {
                String::from_str("No daylight")
            },
        ),
        SensorReading::Dark(d) => Some(
            if d {
                String::from_str("Dark")
            } else {
                String::from_str("Bright")
            },
        ),
        SensorReading::LightLevel(n) => Some(String::from_str("Light level ").concat(signed_decimal_string(n).as_str())),
        SensorReading::ButtonEvent(n) => Some(String::from_str("Button event ").concat(signed_decimal_string(n).as_str())),
    }
}

/// The public model of a sensor.  `temperature_text` is the summary used when the state
/// reports a temperature.
pub fn sensor_from(id: String, raw: RawHueSensor, temperature_text: Option<String>) -> (r: Sensor)
    ensures
        r.id == id,
        r.name == raw.name,
        r.sensor_type == raw.sensor_type,
        r.model_id == raw.modelid,
        r.reachable == as_bool(value_get(raw.config, "reachable"@)),
        r.battery == (match as_u64(value_get(raw.config, "battery"@)) {
            Some(b) => if b <= 255 {
                Some(b as u8)
            } else {
                None
            },
            None => None,
        }),
        match value_get(raw.state, "lastupdated"@) {
            Some(JsonValue::String(s)) => r.last_updated == Some(s),
            _ => r.last_updated is None,
        },
        match reading_spec(raw.state) {
            Some(SensorReading::Temperature(_)) => r.summary == temperature_text,
            Some(reading) => r.summary matches Some(t) && reading_text(reading) == Some(t@),
            None => r.summary is None,
        },
{
    let reachable = get_bool(&raw.config, "reachable");
    let battery = match get(&raw.config, "battery") {
        Some(JsonValue::Number(JsonNumber::Unsigned(u))) => if *u <= 255 {
            Some(*u as u8)
        } else {
            None
        },
        _ => None,
    };
    let last_updated = match get(&raw.state, "lastupdated") {
        Some(JsonValue::String(s)) => Some(s.clone()),
        _ => None,
    };
    let summary = match sensor_reading(&raw.state) {
        Some(reading) => reading_summary(reading, temperature_text),
        None => None,
    };
    Sensor {
        id,
        name: raw.name,
        sensor_type: raw.sensor_type,
        model_id: raw.modelid,
        reachable,
        battery,
        last_updated,
        summary,
    }
}

} // verus!
