//! Reading and editing automation settings: which keys are shown, summaries of values,
//! time values (`HH:MM` strings and hour/minute objects), weekday sets, and changing the
//! kind of a scalar setting.
use vstd::prelude::*;
use crate::hue::models::{Automation, AutomationConfigEntry, AutomationConfigValue};
use crate::string_ops::{
    ascii_lowercase, ascii_lowercase_spec, ascii_upper, is_ascii_digit, is_ascii_digit_char, join, join_spec,
    to_ascii_uppercase, utf8_len_up_to, views,
};
use crate::text::{
    chars_of, contains_seq, contains_str, decimal, decimal_string, owned, parse_unsigned, parse_unsigned_max,
    push_char, str_eq, string_from_chars, trim, trim_spec,
};
use vstd::utf8::encode_utf8;

verus! {

/// A key as compared: trimmed and lower-cased.
pub open spec fn key_token(key: Seq<char>) -> Seq<char> {
    ascii_lowercase_spec(trim_spec(key))
}

fn key_token_of(key: &str) -> (r: String)
    ensures
        r@ == key_token(key@),
{
    ascii_lowercase(trim(key))
}

/// Every key is shown except a resource identifier (`rid`).
pub fn should_render_config_key(key: &str) -> (r: bool)
    ensures
        r == (key_token(key@) != "rid"@),
{
    !str_eq(key_token_of(key).as_str(), "rid")
}

/// The resource type (`rtype`) is shown but cannot be edited.
pub fn is_read_only_config_key(key: &str) -> (r: bool)
    ensures
        r == (key_token(key@) == "rtype"@),
{
    str_eq(key_token_of(key).as_str(), "rtype")
}

/// The entries that are shown, in order.
pub open spec fn visible_entries(entries: Seq<AutomationConfigEntry>) -> Seq<AutomationConfigEntry>
    decreases entries.len(),
{
    if entries.len() == 0 {
        Seq::empty()
    } else if key_token(entries.last().key@) != "rid"@ {
        visible_entries(entries.drop_last()).push(entries.last())
    } else {
        visible_entries(entries.drop_last())
    }
}

/// Drops the entries that are not shown.
pub fn visible_config_entries(entries: Vec<AutomationConfigEntry>) -> (r: Vec<AutomationConfigEntry>)
    ensures
        r@ == visible_entries(entries@),
{
    let ghost all = entries@;
    let mut rest = entries;
    let mut out: Vec<AutomationConfigEntry> = Vec::new();
    assert(all.skip(0) =~= all);
    while rest.len() > 0
        invariant
            rest@.len() <= all.len(),
            rest@ == all.skip(all.len() - rest@.len()),
            out@ == visible_entries(all.take(all.len() - rest@.len())),
        decreases rest.len(),
    {
        let ghost j = all.len() - rest@.len();
        let entry = rest.remove(0);
        assert(all.take(j + 1).drop_last() =~= all.take(j));
        assert(all.take(j + 1).last() == entry);
        assert(rest@ =~= all.skip(j + 1));
        if should_render_config_key(entry.key.as_str()) {
            out.push(entry);
        }
    }
    assert(all.take(all.len() as int) =~= all);
    out
}

/// Whether a value is a string, number, boolean or null.
pub fn is_scalar_value(value: &AutomationConfigValue) -> (r: bool)
    ensures
        r == !(value is Object || value is Array),
{
    match value {
        AutomationConfigValue::String(_) => true,
        AutomationConfigValue::Number(_) => true,
        AutomationConfigValue::Bool(_) => true,
        AutomationConfigValue::Null => true,
        _ => false,
    }
}

/// The kind picker's value for a scalar; objects and arrays count as strings.
pub open spec fn scalar_kind(value: AutomationConfigValue) -> Seq<char> {
    match value {
        AutomationConfigValue::Number(_) => "number"@,
        AutomationConfigValue::Bool(_) => "bool"@,
        AutomationConfigValue::Null => "null"@,
        _ => "string"@,
    }
}

/// The kind picker's value for a scalar.
pub fn scalar_kind_name(value: &AutomationConfigValue) -> (r: &'static str)
    ensures
        r@ == scalar_kind(*value),
{
    match value {
        AutomationConfigValue::Number(_) => "number",
        AutomationConfigValue::Bool(_) => "bool",
        AutomationConfigValue::Null => "null",
        _ => "string",
    }
}

/// `bool::to_string`.
pub open spec fn bool_text(b: bool) -> Seq<char> {
    if b {
        "true"@
    } else {
        "false"@
    }
}

/// A one-line summary of a value: scalars as their text, an object as `object`, an
/// array by its number of items.
pub open spec fn value_summary(value: AutomationConfigValue) -> Seq<char> {
    match value {
        AutomationConfigValue::String(s) => s@,
        AutomationConfigValue::Number(s) => s@,
        AutomationConfigValue::Bool(b) => bool_text(b),
        AutomationConfigValue::Null => "null"@,
        AutomationConfigValue::Object(_) => "object"@,
        AutomationConfigValue::Array(values) => decimal(values@.len()) + " item"@ + (if values@.len() == 1 {
            ""@
        } else {
            "s"@
        }),
    }
}

/// Summarises a setting's value.
pub fn config_value_summary(value: &AutomationConfigValue) -> (r: String)
    ensures
        r@ == value_summary(*value),
{
    match value {
        AutomationConfigValue::String(s) => s.clone(),
        AutomationConfigValue::Number(s) => s.clone(),
        AutomationConfigValue::Bool(b) => if *b {
            String::from_str("true")
        } else {
            String::from_str("false")
        },
        AutomationConfigValue::Null => String::from_str("null"),
        AutomationConfigValue::Object(_) => String::from_str("object"),
        AutomationConfigValue::Array(values) => {
            let n = values.len();
            let s = decimal_string(n as u64).concat(" item");
            if n == 1 {
                s.concat("")
            } else {
                s.concat("s")
            }
        },
    }
}

/// A label that suggests a time: it mentions time, start, end, sunrise or sunset.
pub fn is_time_like_label(label: &str) -> (r: bool)
    ensures
        r == ({
            let n = ascii_lowercase_spec(label@);
            contains_seq(n, "time"@) || contains_seq(n, "start"@) || contains_seq(n, "end"@) || contains_seq(
                n,
                "sunrise"@,
            ) || contains_seq(n, "sunset"@)
        }),
{
    let n = ascii_lowercase(label);
    let n = n.as_str();
    contains_str(n, "time") || contains_str(n, "start") || contains_str(n, "end") || contains_str(n, "sunrise")
        || contains_str(n, "sunset")
}

/// The pieces of a text between colons, empty ones included (`str::split(':')`).
pub open spec fn pieces_from(s: Seq<char>, current: Seq<char>) -> Seq<Seq<char>>
    decreases s.len(),
{
    if s.len() == 0 {
        seq![current]
    } else if s[0] == ':' {
        seq![current] + pieces_from(s.drop_first(), Seq::empty())
    } else {
        pieces_from(s.drop_first(), current.push(s[0]))
    }
}

pub open spec fn colon_pieces(s: Seq<char>) -> Seq<Seq<char>> {
    pieces_from(s, Seq::empty())
}

/// `str::split(':')`, collected.
pub fn split_colons(s: &str) -> (r: Vec<String>)
    ensures
        views(r@) == colon_pieces(s@),
{
    let chars = chars_of(s);
    let mut out: Vec<String> = Vec::new();
    let mut current = String::new();
    let mut i: usize = 0;
    assert(s@.skip(0) =~= s@);
    assert(views(out@) + pieces_from(s@, current@) =~= colon_pieces(s@));
    while i < chars.len()
        invariant
            chars@ == s@,
            i <= chars@.len(),
            views(out@) + pieces_from(s@.skip(i as int), current@) == colon_pieces(s@),
        decreases chars.len() - i,
    {
        assert(s@.skip(i as int).drop_first() =~= s@.skip(i + 1));
        let c = chars[i];
        if c == ':' {
            let ghost before = views(out@);
            let ghost first = current@;
            let ghost tail = pieces_from(s@.skip(i + 1), Seq::empty());
            out.push(current);
            assert(views(out@) =~= before.push(first));
            assert(before.push(first) + tail =~= before + (seq![first] + tail));
            current = String::new();
        } else {
            push_char(&mut current, c);
        }
        i += 1;
    }
    assert(s@.skip(chars@.len() as int) =~= Seq::<char>::empty());
    let ghost before = views(out@);
    let ghost last = current@;
    out.push(current);
    assert(views(out@) =~= before + seq![last]);
    out
}

/// Two ASCII digits.
pub open spec fn two_digits(s: Seq<char>) -> bool {
    s.len() == 2 && is_ascii_digit_char(s[0]) && is_ascii_digit_char(s[1])
}

fn is_two_digits(s: &str) -> (r: bool)
    ensures
        r == two_digits(s@),
{
    let c = chars_of(s);
    c.len() == 2 && is_ascii_digit(c[0]) && is_ascii_digit(c[1])
}

/// A value that reads as a time: two digits, a colon, two digits, and optionally a
/// colon and two more digits (anything after a third colon is not looked at).
pub open spec fn time_like(value: Seq<char>) -> bool {
    let p = colon_pieces(trim_spec(value));
    p.len() >= 2 && two_digits(p[0]) && two_digits(p[1]) && (p.len() < 3 || two_digits(p[2]))
}

/// Whether a string setting holds a time.
pub fn looks_like_time_value(value: &str) -> (r: bool)
    ensures
        r == time_like(value@),
{
    let p = split_colons(trim(value));
    if p.len() < 2 {
        return false;
    }
    if !is_two_digits(p[0].as_str()) || !is_two_digits(p[1].as_str()) {
        return false;
    }
    p.len() < 3 || is_two_digits(p[2].as_str())
}

/// The first five characters of the trimmed value, as a time is shown.
pub fn display_time_value(value: &str) -> (r: String)
    ensures
        r@ == (if trim_spec(value@).len() <= 5 {
            trim_spec(value@)
        } else {
            trim_spec(value@).take(5)
        }),
{
    let t = trim(value);
    let n = t.unicode_len();
    if n <= 5 {
        owned(t)
    } else {
        let head = t.substring_char(0, 5);
        assert(head@ =~= trim_spec(value@).take(5));
        owned(head)
    }
}

/// A number below one hundred with at least two digits, as `{:02}` writes it.
pub open spec fn two_digit_text(n: nat) -> Seq<char> {
    if n < 10 {
        "0"@ + decimal(n)
    } else {
        decimal(n)
    }
}

fn two_digit_string(n: u8) -> (r: String)
    ensures
        r@ == two_digit_text(n as nat),
{
    if n < 10 {
        String::from_str("0").concat(decimal_string(n as u64).as_str())
    } else {
        decimal_string(n as u64)
    }
}

/// Where an edited time goes back to.
#[derive(Clone, Copy, Debug, PartialEq, Eq, Structural)]
pub enum TimePickerTarget {
    StringValue,
    TimePointObject,
}

/// Which part of the time the picker edits.
#[derive(Clone, Copy, Debug, PartialEq, Eq, Structural)]
pub enum TimePickerMode {
    Hour,
    Minute,
}

/// One step of the path to a setting inside the configuration.
#[derive(Clone, Debug, PartialEq, Eq)]
pub enum ConfigPathSegment {
    Key(String),
    Index(usize),
}

/// The state of the time picker.
#[derive(Debug, PartialEq, Eq)]
pub struct TimePickerState {
    pub label: String,
    pub path: Vec<ConfigPathSegment>,
    pub hour: u8,
    pub minute: u8,
    pub include_seconds: bool,
    pub mode: TimePickerMode,
    pub target: TimePickerTarget,
}

/// A `u8` as `str::parse` reads it.
pub open spec fn parse_u8(s: Seq<char>) -> Option<nat> {
    parse_unsigned(s, 255)
}

impl TimePickerState {
    /// A picker for a time string `HH:MM` or `HH:MM:SS`: the hour and minute are the first
    /// two pieces between colons, read as numbers; a third piece means seconds are kept.
    pub fn from_string_value(label: String, path: Vec<ConfigPathSegment>, value: &str) -> (r: Option<Self>)
        ensures
            ({
                let p = colon_pieces(trim_spec(value@));
                match r {
                    Some(state) => p.len() >= 2 && parse_u8(p[0]) == Some(state.hour as nat) && parse_u8(p[1])
                        == Some(state.minute as nat) && state.include_seconds == (p.len() >= 3) && state.label
                        == label && state.path@ == path@ && state.mode == TimePickerMode::Hour && state.target
                        == TimePickerTarget::StringValue,
                    None => p.len() < 2 || parse_u8(p[0]) is None || parse_u8(p[1]) is None,
                }
            }),
    {
        let p = split_colons(trim(value));
        if p.len() < 2 {
            return None;
        }
        let hour = match parse_unsigned_max(p[0].as_str(), 255) {
            Some(h) => h as u8,
            None => {
                return None;
            },
        };
        let minute = match parse_unsigned_max(p[1].as_str(), 255) {
            Some(m) => m as u8,
            None => {
                return None;
            },
        };
        Some(
            TimePickerState {
                label,
                path,
                hour,
                minute,
                include_seconds: p.len() >= 3,
                mode: TimePickerMode::Hour,
                target: TimePickerTarget::StringValue,
            },
        )
    }

    /// A picker for an object with hour and minute members.
    pub fn from_time_point(label: String, path: Vec<ConfigPathSegment>, hour: u8, minute: u8) -> (r: Self)
        ensures
            r.label == label,
            r.path == path,
            r.hour == hour,
            r.minute == minute,
            !r.include_seconds,
            r.mode == TimePickerMode::Hour,
            r.target == TimePickerTarget::TimePointObject,
    {
        TimePickerState {
            label,
            path,
            hour,
            minute,
            include_seconds: false,
            mode: TimePickerMode::Hour,
            target: TimePickerTarget::TimePointObject,
        }
    }

    /// The time as `HH:MM`.
    pub fn formatted_display(&self) -> (r: String)
        ensures
            r@ == two_digit_text(self.hour as nat) + ":"@ + two_digit_text(self.minute as nat),
    {
        two_digit_string(self.hour).concat(":").concat(two_digit_string(self.minute).as_str())
    }

    /// The time as it is written back: `HH:MM`, or `HH:MM:00` when seconds are kept.
    pub fn formatted_value(&self) -> (r: String)
        ensures
            r@ == two_digit_text(self.hour as nat) + ":"@ + two_digit_text(self.minute as nat) + (if self.include_seconds {
                ":00"@
            } else {
                ""@
            }),
    {
        let display = self.formatted_display();
        if self.include_seconds {
            display.concat(":00")
        } else {
            display.concat("")
        }
    }
}

/// An hour and minute read from an object.
#[derive(Clone, Copy, Debug, PartialEq, Eq, Structural)]
pub struct TimePointValue {
    pub hour: u8,
    pub minute: u8,
}

/// What reading an object as a time point has found so far: the hour and minute (the
/// last member of each name counts) and whether its type says `time`; `None` once a
/// member has the wrong kind of value.
pub open spec fn time_point_scan(entries: Seq<AutomationConfigEntry>) -> Option<(Option<nat>, Option<nat>, bool)>
    decreases entries.len(),
{
    if entries.len() == 0 {
        Some((None, None, false))
    } else {
        match time_point_scan(entries.drop_last()) {
            None => None,
            Some((hour, minute, has_type)) => {
                let e = entries.last();
                let k = key_token(e.key@);
                if k == "hour"@ {
                    match e.value {
                        AutomationConfigValue::Number(s) => Some((parse_u8(trim_spec(s@)), minute, has_type)),
                        _ => None,
                    }
                } else if k == "minute"@ {
                    match e.value {
                        AutomationConfigValue::Number(s) => Some((hour, parse_u8(trim_spec(s@)), has_type)),
                        _ => None,
                    }
                } else if k == "type"@ {
                    match e.value {
                        AutomationConfigValue::String(s) => Some(
                            (hour, minute, ascii_lowercase_spec(trim_spec(s@)) == "time"@),
                        ),
                        _ => None,
                    }
                } else {
                    Some((hour, minute, has_type))
                }
            },
        }
    }
}

/// The time an object describes: its type is `time` and it has a readable hour and
/// minute.
pub open spec fn time_point_spec(entries: Seq<AutomationConfigEntry>) -> Option<(nat, nat)> {
    match time_point_scan(entries) {
        Some((Some(h), Some(m), true)) => Some((h, m)),
        _ => None,
    }
}

/// Reads an object as a time point.
pub fn time_point_value(entries: &Vec<AutomationConfigEntry>) -> (r: Option<TimePointValue>)
    ensures
        match time_point_spec(entries@) {
            Some((h, m)) => h <= 255 && m <= 255 && r == Some(TimePointValue { hour: h as u8, minute: m as u8 }),
            None => r is None,
        },
{
    let mut hour: Option<u8> = None;
    let mut minute: Option<u8> = None;
    let mut has_type = false;
    let mut i: usize = 0;
    while i < entries.len()
        invariant
            i <= entries@.len(),
            time_point_scan(entries@.take(i as int)) == Some(
                (
                    match hour {
                        Some(h) => Some(h as nat),
                        None => None::<nat>,
                    },
                    match minute {
                        Some(m) => Some(m as nat),
                        None => None::<nat>,
                    },
                    has_type,
                ),
            ),
        decreases entries.len() - i,
    {
        assert(entries@.take(i + 1).drop_last() =~= entries@.take(i as int));
        let e = &entries[i];
        let k = key_token_of(e.key.as_str());
        proof {
            reveal_strlit("hour");
            reveal_strlit("minute");
            reveal_strlit("type");
            reveal_strlit("time");
        }
        if str_eq(k.as_str(), "hour") {
            match &e.value {
                AutomationConfigValue::Number(s) => {
                    hour = match parse_unsigned_max(trim(s.as_str()), 255) {
                        Some(h) => Some(h as u8),
                        None => None,
                    };
                },
                _ => {
                    proof {
                        lemma_scan_stays_none(entries@, i as int + 1);
                    }
                    return None;
                },
            }
        } else if str_eq(k.as_str(), "minute") {
            match &e.value {
                AutomationConfigValue::Number(s) => {
                    minute = match parse_unsigned_max(trim(s.as_str()), 255) {
                        Some(m) => Some(m as u8),
                        None => None,
                    };
                },
                _ => {
                    proof {
                        lemma_scan_stays_none(entries@, i as int + 1);
                    }
                    return None;
                },
            }
        } else if str_eq(k.as_str(), "type") {
            match &e.value {
                AutomationConfigValue::String(s) => {
                    let lowered = ascii_lowercase(trim(s.as_str()));
                    has_type = str_eq(lowered.as_str(), "time");
                },
                _ => {
                    proof {
                        lemma_scan_stays_none(entries@, i as int + 1);
                    }
                    return None;
                },
            }
        }
        i += 1;
    }
    assert(entries@.take(entries@.len() as int) =~= entries@);
    if has_type {
        match (hour, minute) {
            (Some(h), Some(m)) => Some(TimePointValue { hour: h, minute: m }),
            _ => None,
        }
    } else {
        None
    }
}

/// Once the scan has failed it stays failed.
proof fn lemma_scan_stays_none(entries: Seq<AutomationConfigEntry>, i: int)
    requires
        0 <= i <= entries.len(),
        time_point_scan(entries.take(i)) is None,
    ensures
        time_point_scan(entries) is None,
    decreases entries.len() - i,
{
    if i < entries.len() {
        assert(entries.take(i + 1).drop_last() =~= entries.take(i));
        lemma_scan_stays_none(entries, i + 1);
    } else {
        assert(entries.take(i) =~= entries);
    }
}

/// How weekdays are written in a list.
#[derive(Clone, Copy, Debug, PartialEq, Eq, Structural)]
pub enum WeekdayStyle {
    ShortLower,
    LongLower,
}

/// The day a weekday name stands for, Sunday first.
pub open spec fn weekday_of(t: Seq<char>) -> Option<nat> {
    if t == "sun"@ || t == "sunday"@ {
        Some(0)
    } else if t == "mon"@ || t == "monday"@ {
        Some(1)
    } else if t == "tue"@ || t == "tues"@ || t == "tuesday"@ {
        Some(2)
    } else if t == "wed"@ || t == "wednesday"@ {
        Some(3)
    } else if t == "thu"@ || t == "thurs"@ || t == "thursday"@ {
        Some(4)
    } else if t == "fri"@ || t == "friday"@ {
        Some(5)
    } else if t == "sat"@ || t == "saturday"@ {
        Some(6)
    } else {
        None
    }
}

/// The day a weekday name stands for, in any letter case and with surrounding spaces.
pub fn weekday_index(value: &str) -> (r: Option<usize>)
    ensures
        match weekday_of(key_token(value@)) {
            Some(d) => r == Some(d as usize),
            None => r is None,
        },
{
    let t = key_token_of(value);
    let t = t.as_str();
    if str_eq(t, "sun") || str_eq(t, "sunday") {
        Some(0)
    } else if str_eq(t, "mon") || str_eq(t, "monday") {
        Some(1)
    } else if str_eq(t, "tue") || str_eq(t, "tues") || str_eq(t, "tuesday") {
        Some(2)
    } else if str_eq(t, "wed") || str_eq(t, "wednesday") {
        Some(3)
    } else if str_eq(t, "thu") || str_eq(t, "thurs") || str_eq(t, "thursday") {
        Some(4)
    } else if str_eq(t, "fri") || str_eq(t, "friday") {
        Some(5)
    } else if str_eq(t, "sat") || str_eq(t, "saturday") {
        Some(6)
    } else {
        None
    }
}

/// The one-letter label of a day.
pub fn weekday_label(index: usize) -> (r: &'static str)
    ensures
        r@ == (if index == 0 || index == 6 {
            "S"@
        } else if index == 1 {
            "M"@
        } else if index == 2 || index == 4 {
            "T"@
        } else if index == 3 {
            "W"@
        } else if index == 5 {
            "F"@
        } else {
            "?"@
        }),
{
    if index == 0 || index == 6 {
        "S"
    } else if index == 1 {
        "M"
    } else if index == 2 || index == 4 {
        "T"
    } else if index == 3 {
        "W"
    } else if index == 5 {
        "F"
    } else {
        "?"
    }
}

/// The days of a list of weekday names; `None` when the list is empty or an item is not
/// a weekday name.
pub open spec fn weekday_list(values: Seq<AutomationConfigValue>) -> Option<Seq<nat>>
    decreases values.len(),
{
    if values.len() == 0 {
        Some(Seq::empty())
    } else {
        match (weekday_list(values.drop_last()), values.last()) {
            (Some(days), AutomationConfigValue::String(s)) => match weekday_of(key_token(s@)) {
                Some(d) => Some(days.push(d)),
                None => None,
            },
            _ => None,
        }
    }
}

/// The days of a non-empty list of weekday names.
pub fn weekday_values(values: &Vec<AutomationConfigValue>) -> (r: Option<Vec<usize>>)
    ensures
        values@.len() == 0 ==> r is None,
        values@.len() > 0 ==> match weekday_list(values@) {
            Some(days) => r matches Some(v) && v@.len() == days.len() && forall|i: int|
                0 <= i < days.len() ==> v@[i] == days[i],
            None => r is None,
        },
{
    if values.len() == 0 {
        return None;
    }
    let mut out: Vec<usize> = Vec::new();
    let mut i: usize = 0;
    while i < values.len()
        invariant
            i <= values@.len(),
            weekday_list(values@.take(i as int)) matches Some(days) && out@.len() == days.len() && forall|k: int|
                0 <= k < days.len() ==> out@[k] == days[k],
        decreases values.len() - i,
    {
        assert(values@.take(i + 1).drop_last() =~= values@.take(i as int));
        let day = match &values[i] {
            AutomationConfigValue::String(s) => weekday_index(s.as_str()),
            _ => None,
        };
        match day {
            Some(d) => out.push(d),
            None => {
                proof {
                    lemma_weekday_list_stays_none(values@, i as int + 1);
                }
                return None;
            },
        }
        i += 1;
    }
    assert(values@.take(values@.len() as int) =~= values@);
    Some(out)
}

proof fn lemma_weekday_list_stays_none(values: Seq<AutomationConfigValue>, i: int)
    requires
        0 <= i <= values.len(),
        weekday_list(values.take(i)) is None,
    ensures
        weekday_list(values) is None,
    decreases values.len() - i,
{
    if i < values.len() {
        assert(values.take(i + 1).drop_last() =~= values.take(i));
        lemma_weekday_list_stays_none(values, i + 1);
    } else {
        assert(values.take(i) =~= values);
    }
}

/// The style of the first string item: up to three bytes once trimmed is the short
/// form; the long form otherwise and for lists without strings.
pub open spec fn weekday_style_of(values: Seq<AutomationConfigValue>) -> WeekdayStyle
    decreases values.len(),
{
    if values.len() == 0 {
        WeekdayStyle::LongLower
    } else {
        match values[0] {
            AutomationConfigValue::String(s) => if encode_utf8(trim_spec(s@)).len() <= 3 {
                WeekdayStyle::ShortLower
            } else {
                WeekdayStyle::LongLower
            },
            _ => weekday_style_of(values.drop_first()),
        }
    }
}

/// The weekday style a list already uses.
pub fn infer_weekday_style(values: &Vec<AutomationConfigValue>) -> (r: WeekdayStyle)
    ensures
        r == weekday_style_of(values@),
{
    let mut i: usize = 0;
    assert(values@.skip(0) =~= values@);
    while i < values.len()
        invariant
            i <= values@.len(),
            weekday_style_of(values@) == weekday_style_of(values@.skip(i as int)),
        decreases values.len() - i,
    {
        assert(values@.skip(i as int).drop_first() =~= values@.skip(i + 1));
        match &values[i] {
            AutomationConfigValue::String(s) => {
                return if utf8_len_up_to(trim(s.as_str()), 3) <= 3 {
                    WeekdayStyle::ShortLower
                } else {
                    WeekdayStyle::LongLower
                };
            },
            _ => {},
        }
        i += 1;
    }
    WeekdayStyle::LongLower
}

/// The name of a day in a style; an unknown day is Sunday.
pub open spec fn weekday_name(index: nat, style: WeekdayStyle) -> Seq<char> {
    match style {
        WeekdayStyle::ShortLower => if index == 1 {
            "mon"@
        } else if index == 2 {
            "tue"@
        } else if index == 3 {
            "wed"@
        } else if index == 4 {
            "thu"@
        } else if index == 5 {
            "fri"@
        } else if index == 6 {
            "sat"@
        } else {
            "sun"@
        },
        WeekdayStyle::LongLower => if index == 1 {
            "monday"@
        } else if index == 2 {
            "tuesday"@
        } else if index == 3 {
            "wednesday"@
        } else if index == 4 {
            "thursday"@
        } else if index == 5 {
            "friday"@
        } else if index == 6 {
            "saturday"@
        } else {
            "sunday"@
        },
    }
}

/// The weekday names are read in calendar order, Sunday first: each short, long and
/// abbreviated name stands for its own day; and the name of every day, in either style,
/// is read back as that day, so distinct days never share a name.
pub proof fn lemma_weekday_calendar()
    ensures
        weekday_of("sun"@) == Some(0nat) && weekday_of("sunday"@) == Some(0nat),
        weekday_of("mon"@) == Some(1nat) && weekday_of("monday"@) == Some(1nat),
        weekday_of("tue"@) == Some(2nat) && weekday_of("tues"@) == Some(2nat) && weekday_of("tuesday"@) == Some(2nat),
        weekday_of("wed"@) == Some(3nat) && weekday_of("wednesday"@) == Some(3nat),
        weekday_of("thu"@) == Some(4nat) && weekday_of("thurs"@) == Some(4nat) && weekday_of("thursday"@) == Some(4nat),
        weekday_of("fri"@) == Some(5nat) && weekday_of("friday"@) == Some(5nat),
        weekday_of("sat"@) == Some(6nat) && weekday_of("saturday"@) == Some(6nat),
        forall|d: nat, style: WeekdayStyle| d < 7 ==> weekday_of(#[trigger] weekday_name(d, style)) == Some(d),
        forall|d1: nat, d2: nat, s1: WeekdayStyle, s2: WeekdayStyle|
            d1 < 7 && d2 < 7 && #[trigger] weekday_name(d1, s1) == #[trigger] weekday_name(d2, s2) ==> d1 == d2,
{
    reveal_strlit("sun");
    reveal_strlit("sunday");
    reveal_strlit("mon");
    reveal_strlit("monday");
    reveal_strlit("tue");
    reveal_strlit("tues");
    reveal_strlit("tuesday");
    reveal_strlit("wed");
    reveal_strlit("wednesday");
    reveal_strlit("thu");
    reveal_strlit("thurs");
    reveal_strlit("thursday");
    reveal_strlit("fri");
    reveal_strlit("friday");
    reveal_strlit("sat");
    reveal_strlit("saturday");
    assert("sun"@.len() == 3 && "sun"@[0] == 's' && "sun"@[1] == 'u');
    assert("sunday"@.len() == 6 && "sunday"@[0] == 's' && "sunday"@[1] == 'u');
    assert("mon"@.len() == 3 && "mon"@[0] == 'm' && "mon"@[1] == 'o');
    assert("monday"@.len() == 6 && "monday"@[0] == 'm' && "monday"@[1] == 'o');
    assert("tue"@.len() == 3 && "tue"@[0] == 't' && "tue"@[1] == 'u');
    assert("tues"@.len() == 4 && "tues"@[0] == 't' && "tues"@[1] == 'u');
    assert("tuesday"@.len() == 7 && "tuesday"@[0] == 't' && "tuesday"@[1] == 'u');
    assert("wed"@.len() == 3 && "wed"@[0] == 'w' && "wed"@[1] == 'e');
    assert("wednesday"@.len() == 9 && "wednesday"@[0] == 'w' && "wednesday"@[1] == 'e');
    assert("thu"@.len() == 3 && "thu"@[0] == 't' && "thu"@[1] == 'h');
    assert("thurs"@.len() == 5 && "thurs"@[0] == 't' && "thurs"@[1] == 'h');
    assert("thursday"@.len() == 8 && "thursday"@[0] == 't' && "thursday"@[1] == 'h');
    assert("fri"@.len() == 3 && "fri"@[0] == 'f' && "fri"@[1] == 'r');
    assert("friday"@.len() == 6 && "friday"@[0] == 'f' && "friday"@[1] == 'r');
    assert("sat"@.len() == 3 && "sat"@[0] == 's' && "sat"@[1] == 'a');
    assert("saturday"@.len() == 8 && "saturday"@[0] == 's' && "saturday"@[1] == 'a');
    assert forall|d: nat, style: WeekdayStyle| d < 7 implies weekday_of(#[trigger] weekday_name(d, style))
        == Some(d) by {
        if d == 0 {
        } else if d == 1 {
        } else if d == 2 {
        } else if d == 3 {
        } else if d == 4 {
        } else if d == 5 {
        } else {
        }
    }
    assert forall|d1: nat, d2: nat, s1: WeekdayStyle, s2: WeekdayStyle|
        d1 < 7 && d2 < 7 && #[trigger] weekday_name(d1, s1) == #[trigger] weekday_name(d2, s2) implies d1 == d2 by {
        assert(weekday_of(weekday_name(d1, s1)) == Some(d1));
        assert(weekday_of(weekday_name(d2, s2)) == Some(d2));
    }
}

/// The name of a day in a style.
pub fn encode_weekday(index: usize, style: WeekdayStyle) -> (r: String)
    ensures
        r@ == weekday_name(index as nat, style),
{
    let s = match style {
        WeekdayStyle::ShortLower => if index == 1 {
            "mon"
        } else if index == 2 {
            "tue"
        } else if index == 3 {
            "wed"
        } else if index == 4 {
            "thu"
        } else if index == 5 {
            "fri"
        } else if index == 6 {
            "sat"
        } else {
            "sun"
        },
        WeekdayStyle::LongLower => if index == 1 {
            "monday"
        } else if index == 2 {
            "tuesday"
        } else if index == 3 {
            "wednesday"
        } else if index == 4 {
            "thursday"
        } else if index == 5 {
            "friday"
        } else if index == 6 {
            "saturday"
        } else {
            "sunday"
        },
    };
    owned(s)
}

/// The icon of an automation, by words in its name.
pub open spec fn automation_icon(name: Seq<char>) -> Seq<char> {
    let n = ascii_lowercase_spec(name);
    if contains_seq(n, "sleep"@) || contains_seq(n, "night"@) {
        "fa-solid fa-moon"@
    } else if contains_seq(n, "wake"@) || contains_seq(n, "morning"@) || contains_seq(n, "sunrise"@) {
        "fa-solid fa-sun"@
    } else if contains_seq(n, "timer"@) || contains_seq(n, "schedule"@) {
        "fa-solid fa-clock"@
    } else if contains_seq(n, "away"@) || contains_seq(n, "security"@) {
        "fa-solid fa-shield-halved"@
    } else {
        "fa-solid fa-wand-magic-sparkles"@
    }
}

/// The icon class of an automation's card.
pub fn automation_icon_class(automation: &Automation) -> (r: &'static str)
    ensures
        r@ == automation_icon(automation.name@),
{
    let n = ascii_lowercase(automation.name.as_str());
    let n = n.as_str();
    if contains_str(n, "sleep") || contains_str(n, "night") {
        "fa-solid fa-moon"
    } else if contains_str(n, "wake") || contains_str(n, "morning") || contains_str(n, "sunrise") {
        "fa-solid fa-sun"
    } else if contains_str(n, "timer") || contains_str(n, "schedule") {
        "fa-solid fa-clock"
    } else if contains_str(n, "away") || contains_str(n, "security") {
        "fa-solid fa-shield-halved"
    } else {
        "fa-solid fa-wand-magic-sparkles"
    }
}

/// A scalar setting converted to another kind: `string`, `number`, `bool` or `null`;
/// an object or array, asked to become a string, number or boolean, stays as it is
/// (`None`), and an unknown kind leaves the value unchanged (also `None`).
pub open spec fn converted_scalar(current: AutomationConfigValue, kind: Seq<char>) -> Option<(u8, Seq<char>, bool)> {
    if kind == "string"@ {
        match current {
            AutomationConfigValue::String(s) => Some((0, s@, false)),
            AutomationConfigValue::Number(s) => Some((0, s@, false)),
            AutomationConfigValue::Bool(b) => Some((0, bool_text(b), false)),
            AutomationConfigValue::Null => Some((0, Seq::empty(), false)),
            _ => None,
        }
    } else if kind == "number"@ {
        match current {
            AutomationConfigValue::String(s) => Some((1, s@, false)),
            AutomationConfigValue::Number(s) => Some((1, s@, false)),
            AutomationConfigValue::Bool(b) => Some((1, if b {
                "1"@
            } else {
                "0"@
            }, false)),
            AutomationConfigValue::Null => Some((1, "0"@, false)),
            _ => None,
        }
    } else if kind == "bool"@ {
        match current {
            AutomationConfigValue::String(s) => {
                let t = ascii_lowercase_spec(trim_spec(s@));
                Some((2, Seq::empty(), t == "true"@ || t == "1"@ || t == "yes"@ || t == "on"@))
            },
            AutomationConfigValue::Number(s) => Some((2, Seq::empty(), trim_spec(s@) != "0"@)),
            AutomationConfigValue::Bool(b) => Some((2, Seq::empty(), b)),
            AutomationConfigValue::Null => Some((2, Seq::empty(), false)),
            _ => None,
        }
    } else if kind == "null"@ {
        Some((3, Seq::empty(), false))
    } else {
        None
    }
}

/// The value of a conversion: its kind tag, text and truth value.
pub open spec fn scalar_parts(v: AutomationConfigValue) -> Option<(u8, Seq<char>, bool)> {
    match v {
        AutomationConfigValue::String(s) => Some((0, s@, false)),
        AutomationConfigValue::Number(s) => Some((1, s@, false)),
        AutomationConfigValue::Bool(b) => Some((2, Seq::empty(), b)),
        AutomationConfigValue::Null => Some((3, Seq::empty(), false)),
        _ => None,
    }
}

/// Converts a scalar setting to the kind picked; `None` leaves the setting as it is.
pub fn convert_scalar_kind(current: &AutomationConfigValue, next_kind: &str) -> (r: Option<AutomationConfigValue>)
    ensures
        match converted_scalar(*current, next_kind@) {
            Some(parts) => r matches Some(v) && scalar_parts(v) == Some(parts),
            None => r is None,
        },
{
    proof {
        reveal_strlit("string");
        reveal_strlit("number");
        reveal_strlit("bool");
        reveal_strlit("null");
    }
    if str_eq(next_kind, "string") {
        match current {
            AutomationConfigValue::String(s) => Some(AutomationConfigValue::String(s.clone())),
            AutomationConfigValue::Number(s) => Some(AutomationConfigValue::String(s.clone())),
            AutomationConfigValue::Bool(b) => Some(
                AutomationConfigValue::String(
                    if *b {
                        String::from_str("true")
                    } else {
                        String::from_str("false")
                    },
                ),
            ),
            AutomationConfigValue::Null => Some(AutomationConfigValue::String(String::new())),
            _ => None,
        }
    } else if str_eq(next_kind, "number") {
        match current {
            AutomationConfigValue::String(s) => Some(AutomationConfigValue::Number(s.clone())),
            AutomationConfigValue::Number(s) => Some(AutomationConfigValue::Number(s.clone())),
            AutomationConfigValue::Bool(b) => Some(
                AutomationConfigValue::Number(
                    if *b {
                        String::from_str("1")
                    } else {
                        String::from_str("0")
                    },
                ),
            ),
            AutomationConfigValue::Null => Some(AutomationConfigValue::Number(String::from_str("0"))),
            _ => None,
        }
    } else if str_eq(next_kind, "bool") {
        match current {
            AutomationConfigValue::String(s) => {
                let t = ascii_lowercase(trim(s.as_str()));
                let t = t.as_str();
                Some(
                    AutomationConfigValue::Bool(
                        str_eq(t, "true") || str_eq(t, "1") || str_eq(t, "yes") || str_eq(t, "on"),
                    ),
                )
            },
            AutomationConfigValue::Number(s) => Some(AutomationConfigValue::Bool(!str_eq(trim(s.as_str()), "0"))),
            AutomationConfigValue::Bool(b) => Some(AutomationConfigValue::Bool(*b)),
            AutomationConfigValue::Null => Some(AutomationConfigValue::Bool(false)),
            _ => None,
        }
    } else if str_eq(next_kind, "null") {
        Some(AutomationConfigValue::Null)
    } else {
        None
    }
}

/// Whether an item names day `d`.
pub open spec fn names_day(item: AutomationConfigValue, d: nat) -> bool {
    item matches AutomationConfigValue::String(s) && weekday_of(key_token(s@)) == Some(d)
}

/// The items that do not name day `d`, in order.
pub open spec fn without_day(values: Seq<AutomationConfigValue>, d: nat) -> Seq<AutomationConfigValue>
    decreases values.len(),
{
    if values.len() == 0 {
        Seq::empty()
    } else if names_day(values.last(), d) {
        without_day(values.drop_last(), d)
    } else {
        without_day(values.drop_last(), d).push(values.last())
    }
}

/// `r` is the list `values` after toggling day `d`: every item naming that day is removed
/// when the day was selected; otherwise the day is added at the end in the list's style.
pub open spec fn weekday_toggled(values: Seq<AutomationConfigValue>, d: nat, r: Seq<AutomationConfigValue>) -> bool {
    let selected = match weekday_list(values) {
        Some(days) => values.len() > 0 && days.contains(d),
        None => false,
    };
    if selected {
        r == without_day(values, d)
    } else {
        r.len() == values.len() + 1 && r.take(values.len() as int) == values && (r.last() matches AutomationConfigValue::String(
            s,
        ) && s@ == weekday_name(d, weekday_style_of(values)))
    }
}

/// The list after toggling one day: every item naming that day is removed when the day
/// was selected; otherwise the day is added in the list's style.
pub fn toggle_weekday_values(values: Vec<AutomationConfigValue>, toggled_index: usize) -> (r: Vec<AutomationConfigValue>)
    ensures
        weekday_toggled(values@, toggled_index as nat, r@),
{
    let style = infer_weekday_style(&values);
    let encoded = encode_weekday(toggled_index, style);
    let selection = weekday_values(&values);
    let mut selected = false;
    match &selection {
        Some(days) => {
            let mut k: usize = 0;
            while k < days.len()
                invariant
                    k <= days@.len(),
                    selected == exists|j: int| 0 <= j < k && days@[j] == toggled_index,
                decreases days.len() - k,
            {
                if days[k] == toggled_index {
                    selected = true;
                }
                k += 1;
            }
            proof {
                if let Some(list) = weekday_list(values@) {
                    if selected {
                        let j = choose|j: int| 0 <= j < k && days@[j] == toggled_index;
                        assert(list[j] == toggled_index as nat);
                    }
                    if list.contains(toggled_index as nat) {
                        let j = choose|j: int| 0 <= j < list.len() && list[j] == toggled_index as nat;
                        assert(days@[j] == toggled_index);
                    }
                }
            }
        },
        None => {},
    }
    let ghost initial = values@;
    if selected {
        let mut kept: Vec<AutomationConfigValue> = Vec::new();
        let mut rest = values;
        assert(initial.skip(0) =~= initial);
        while rest.len() > 0
            invariant
                rest@.len() <= initial.len(),
                rest@ == initial.skip(initial.len() - rest@.len()),
                kept@ == without_day(initial.take(initial.len() - rest@.len()), toggled_index as nat),
            decreases rest.len(),
        {
            let ghost j = initial.len() - rest@.len();
            let item = rest.remove(0);
            assert(initial.take(j + 1).drop_last() =~= initial.take(j));
            assert(initial.take(j + 1).last() == item);
            assert(rest@ =~= initial.skip(j + 1));
            let drop = match &item {
                AutomationConfigValue::String(s) => match weekday_index(s.as_str()) {
                    Some(d) => d == toggled_index,
                    None => false,
                },
                _ => false,
            };
            if !drop {
                kept.push(item);
            }
        }
        assert(initial.take(initial.len() as int) =~= initial);
        kept
    } else {
        let mut out = values;
        out.push(AutomationConfigValue::String(encoded));
        assert(out@.take(initial.len() as int) =~= initial);
        out
    }
}


/// The day, key and flag of an entry whose key names a weekday and whose value is a
/// boolean.
pub open spec fn weekday_flag(e: AutomationConfigEntry) -> Option<(nat, Seq<char>, bool)> {
    match e.value {
        AutomationConfigValue::Bool(b) => match weekday_of(key_token(e.key@)) {
            Some(d) => Some((d, e.key@, b)),
            None => None,
        },
        _ => None,
    }
}

/// The weekday flags of the entries, in order; `None` when some entry is not one.
pub open spec fn weekday_flags(entries: Seq<AutomationConfigEntry>) -> Option<Seq<(nat, Seq<char>, bool)>>
    decreases entries.len(),
{
    if entries.len() == 0 {
        Some(Seq::empty())
    } else {
        match (weekday_flags(entries.drop_last()), weekday_flag(entries.last())) {
            (Some(s), Some(f)) => Some(s.push(f)),
            _ => None,
        }
    }
}

/// The flags of day `d`, in their order.
pub open spec fn flags_on_day(flags: Seq<(nat, Seq<char>, bool)>, d: nat) -> Seq<(nat, Seq<char>, bool)>
    decreases flags.len(),
{
    if flags.len() == 0 {
        Seq::empty()
    } else if flags.last().0 == d {
        flags_on_day(flags.drop_last(), d).push(flags.last())
    } else {
        flags_on_day(flags.drop_last(), d)
    }
}

/// The flags of the days before `days`, day by day; the flags of one day keep their
/// order.
pub open spec fn flags_by_day(flags: Seq<(nat, Seq<char>, bool)>, days: nat) -> Seq<(nat, Seq<char>, bool)>
    decreases days,
{
    if days == 0 {
        Seq::empty()
    } else {
        flags_by_day(flags, (days - 1) as nat) + flags_on_day(flags, (days - 1) as nat)
    }
}

/// Day, key and flag as plain values.
pub open spec fn flag_views(v: Seq<(usize, String, bool)>) -> Seq<(nat, Seq<char>, bool)> {
    v.map_values(|t: (usize, String, bool)| (t.0 as nat, t.1@, t.2))
}

proof fn lemma_flags_none_extends(s: Seq<AutomationConfigEntry>, i: int)
    requires
        0 <= i <= s.len(),
        weekday_flags(s.take(i)) is None,
    ensures
        weekday_flags(s) is None,
    decreases s.len() - i,
{
    if i == s.len() {
        assert(s.take(i) =~= s);
    } else {
        assert(s.take(i + 1).drop_last() =~= s.take(i));
        lemma_flags_none_extends(s, i + 1);
    }
}

/// Reads an object of weekday flags (`{"mon": true, ...}`): every entry must have a
/// weekday key and a boolean value.  The flags come out ordered by day, Sunday first;
/// flags of the same day keep their order.  `None` for an empty object or one with
/// another entry.
pub fn weekday_entries(entries: &Vec<AutomationConfigEntry>) -> (r: Option<Vec<(usize, String, bool)>>)
    ensures
        match r {
            Some(v) => entries@.len() > 0 && weekday_flags(entries@) is Some && flag_views(v@) == flags_by_day(
                weekday_flags(entries@).unwrap(),
                7,
            ),
            None => entries@.len() == 0 || weekday_flags(entries@) is None,
        },
{
    if entries.len() == 0 {
        return None;
    }
    let mut flags: Vec<(usize, String, bool)> = Vec::new();
    let mut i: usize = 0;
    while i < entries.len()
        invariant
            i <= entries@.len(),
            weekday_flags(entries@.take(i as int)) == Some(flag_views(flags@)),
        decreases entries.len() - i,
    {
        assert(entries@.take(i + 1).drop_last() =~= entries@.take(i as int));
        assert(entries@.take(i + 1).last() == entries@[i as int]);
        let e = &entries[i];
        let b = match &e.value {
            AutomationConfigValue::Bool(b) => *b,
            _ => {
                proof {
                    lemma_flags_none_extends(entries@, i + 1);
                }
                return None;
            },
        };
        match weekday_index(e.key.as_str()) {
            Some(d) => {
                let ghost before = flag_views(flags@);
                flags.push((d, e.key.clone(), b));
                assert(flag_views(flags@) =~= before.push((d as nat, e.key@, b)));
            },
            None => {
                proof {
                    lemma_flags_none_extends(entries@, i + 1);
                }
                return None;
            },
        }
        i += 1;
    }
    assert(entries@.take(entries@.len() as int) =~= entries@);
    let ghost all = flag_views(flags@);
    let mut out: Vec<(usize, String, bool)> = Vec::new();
    let mut d: usize = 0;
    while d < 7
        invariant
            d <= 7,
            all == flag_views(flags@),
            flag_views(out@) == flags_by_day(all, d as nat),
        decreases 7 - d,
    {
        let mut j: usize = 0;
        assert(all.take(0) =~= Seq::<(nat, Seq<char>, bool)>::empty());
        assert(flags_by_day(all, d as nat) + flags_on_day(all.take(0), d as nat) =~= flags_by_day(all, d as nat));
        while j < flags.len()
            invariant
                j <= flags@.len(),
                d < 7,
                all == flag_views(flags@),
                flag_views(out@) == flags_by_day(all, d as nat) + flags_on_day(all.take(j as int), d as nat),
            decreases flags.len() - j,
        {
            assert(all.take(j + 1).drop_last() =~= all.take(j as int));
            assert(all.take(j + 1).last() == all[j as int]);
            if flags[j].0 == d {
                let ghost before = flag_views(out@);
                let item = (flags[j].0, flags[j].1.clone(), flags[j].2);
                out.push(item);
                assert(flag_views(out@) =~= before.push(all[j as int]));
                assert(flags_by_day(all, d as nat) + flags_on_day(all.take(j + 1), d as nat) =~= (flags_by_day(
                    all,
                    d as nat,
                ) + flags_on_day(all.take(j as int), d as nat)).push(all[j as int]));
            }
            j += 1;
        }
        assert(all.take(flags@.len() as int) =~= all);
        d += 1;
    }
    Some(out)
}

/// An hour and minute found one level down, under the key `label`.
#[derive(Debug, PartialEq, Eq)]
pub struct NestedTimePointValue {
    pub label: String,
    pub path: Vec<ConfigPathSegment>,
    pub time_point: TimePointValue,
}

/// The time an entry holds as an object of its own.
pub open spec fn nested_time_point(e: AutomationConfigEntry) -> Option<(nat, nat)> {
    match e.value {
        AutomationConfigValue::Object(children) => time_point_spec(children@),
        _ => None,
    }
}

/// The first entry whose value is an object describing a time point, with the path to it.
pub fn nested_time_point_value(entries: &Vec<AutomationConfigEntry>) -> (r: Option<NestedTimePointValue>)
    ensures
        match r {
            Some(n) => exists|i: int|
                0 <= i < entries@.len() && nested_time_point(#[trigger] entries@[i]) == Some(
                    (n.time_point.hour as nat, n.time_point.minute as nat),
                ) && (forall|j: int| 0 <= j < i ==> nested_time_point(#[trigger] entries@[j]) is None) && n.label
                    == entries@[i].key && n.path@ == seq![ConfigPathSegment::Key(entries@[i].key)],
            None => forall|i: int| 0 <= i < entries@.len() ==> nested_time_point(#[trigger] entries@[i]) is None,
        },
{
    let mut i: usize = 0;
    while i < entries.len()
        invariant
            i <= entries@.len(),
            forall|j: int| 0 <= j < i ==> nested_time_point(#[trigger] entries@[j]) is None,
        decreases entries.len() - i,
    {
        let e = &entries[i];
        match &e.value {
            AutomationConfigValue::Object(children) => {
                match time_point_value(children) {
                    Some(tp) => {
                        let mut path: Vec<ConfigPathSegment> = Vec::new();
                        path.push(ConfigPathSegment::Key(e.key.clone()));
                        let n = NestedTimePointValue { label: e.key.clone(), path, time_point: tp };
                        assert(nested_time_point(entries@[i as int]) == Some((tp.hour as nat, tp.minute as nat)));
                        return Some(n);
                    },
                    None => {},
                }
            },
            _ => {},
        }
        i += 1;
    }
    None
}


/// The characters at which a setting's name is cut into words.
pub open spec fn is_label_separator(c: char) -> bool {
    c == '_' || c == '-' || c == '.'
}

/// The non-empty pieces of `s` between separators that are still to come, `current`
/// being the part of a piece read so far.
pub open spec fn label_parts_from(s: Seq<char>, current: Seq<char>) -> Seq<Seq<char>>
    decreases s.len(),
{
    if s.len() == 0 {
        if current.len() > 0 {
            seq![current]
        } else {
            Seq::empty()
        }
    } else if is_label_separator(s[0]) {
        (if current.len() > 0 {
            seq![current]
        } else {
            Seq::<Seq<char>>::empty()
        }) + label_parts_from(s.drop_first(), Seq::empty())
    } else {
        label_parts_from(s.drop_first(), current.push(s[0]))
    }
}

/// The non-empty pieces of a setting's name between `_`, `-` and `.`.
pub open spec fn label_parts(s: Seq<char>) -> Seq<Seq<char>> {
    label_parts_from(s, Seq::empty())
}

/// A word with its first letter in upper case (ASCII).
pub open spec fn capitalized(w: Seq<char>) -> Seq<char> {
    if w.len() == 0 {
        w
    } else {
        seq![ascii_upper(w[0])] + w.drop_first()
    }
}

/// A setting's name as shown: its pieces capitalised and joined by spaces.
pub open spec fn humanized_label(s: Seq<char>) -> Seq<char> {
    join_spec(label_parts(s).map_values(|w: Seq<char>| capitalized(w)), " "@)
}

fn split_label(s: &str) -> (r: Vec<String>)
    ensures
        views(r@) == label_parts(s@),
{
    let chars = chars_of(s);
    let mut out: Vec<String> = Vec::new();
    let mut current = String::new();
    let mut i: usize = 0;
    assert(s@.skip(0) =~= s@);
    assert(views(out@) + label_parts_from(s@, current@) =~= label_parts(s@));
    while i < chars.len()
        invariant
            chars@ == s@,
            i <= chars@.len(),
            views(out@) + label_parts_from(s@.skip(i as int), current@) == label_parts(s@),
        decreases chars.len() - i,
    {
        let ghost rest = s@.skip(i as int);
        assert(rest.drop_first() =~= s@.skip(i + 1));
        let c = chars[i];
        if c == '_' || c == '-' || c == '.' {
            if current.unicode_len() > 0 {
                let ghost before = views(out@);
                let ghost tail = label_parts_from(s@.skip(i + 1), Seq::empty());
                let ghost first = current@;
                out.push(current);
                assert(views(out@) =~= before.push(first));
                assert(before.push(first) + tail =~= before + (seq![first] + tail));
                current = String::new();
            } else {
                assert(current@ =~= Seq::<char>::empty());
                assert(Seq::<Seq<char>>::empty() + label_parts_from(s@.skip(i + 1), Seq::empty())
                    =~= label_parts_from(s@.skip(i + 1), Seq::empty()));
            }
        } else {
            push_char(&mut current, c);
        }
        i += 1;
    }
    assert(s@.skip(chars@.len() as int) =~= Seq::<char>::empty());
    if current.unicode_len() > 0 {
        let ghost before = views(out@);
        let ghost cur = current@;
        out.push(current);
        assert(views(out@) =~= before + seq![cur]);
    } else {
        assert(views(out@) =~= views(out@) + Seq::<Seq<char>>::empty());
    }
    out
}

fn capitalize(w: &str) -> (r: String)
    ensures
        r@ == capitalized(w@),
{
    let chars = chars_of(w);
    let mut out = String::new();
    let mut i: usize = 0;
    while i < chars.len()
        invariant
            chars@ == w@,
            i <= chars@.len(),
            out@ == capitalized(w@.take(i as int)),
        decreases chars.len() - i,
    {
        if i == 0 {
            push_char(&mut out, to_ascii_uppercase(chars[i]));
            assert(out@ =~= capitalized(w@.take(1)));
        } else {
            let ghost before = out@;
            push_char(&mut out, chars[i]);
            assert(capitalized(w@.take(i + 1)) =~= capitalized(w@.take(i as int)).push(w@[i as int]));
        }
        i += 1;
    }
    assert(w@.take(chars@.len() as int) =~= w@);
    out
}

/// A setting's name as a label: `transition_time` becomes `Transition Time`.
pub fn humanize_config_label(value: &str) -> (r: String)
    ensures
        r@ == humanized_label(value@),
{
    let parts = split_label(value);
    let mut words: Vec<String> = Vec::new();
    let mut i: usize = 0;
    while i < parts.len()
        invariant
            i <= parts@.len(),
            views(words@) == views(parts@.take(i as int)).map_values(|w: Seq<char>| capitalized(w)),
        decreases parts.len() - i,
    {
        let ghost before = views(words@);
        words.push(capitalize(parts[i].as_str()));
        assert(views(parts@.take(i + 1)) =~= views(parts@.take(i as int)).push(parts@[i as int]@));
        assert(views(words@) =~= before.push(capitalized(parts@[i as int]@)));
        assert(views(parts@.take(i + 1)).map_values(|w: Seq<char>| capitalized(w)) =~= views(
            parts@.take(i as int),
        ).map_values(|w: Seq<char>| capitalized(w)).push(capitalized(parts@[i as int]@)));
        i += 1;
    }
    assert(parts@.take(parts@.len() as int) =~= parts@);
    join(&words, " ")
}


/// A change to one setting, as the automation editor makes them.
#[derive(Debug, PartialEq, Eq)]
pub enum ConfigEdit {
    SetString(String),
    SetNumber(String),
    SetBool(bool),
    /// Sets the `hour` and `minute` members of a time-point object.
    SetTimePoint(u8, u8),
    /// Converts a scalar to the kind named (`string`, `number`, `bool`, `null`).
    ConvertKind(String),
    /// Adds or removes a day (Sunday first) in a list of weekday names.
    ToggleWeekday(usize),
}

/// `new` holds the members of `old` with every `hour` member set to `hour` and every
/// `minute` member set to `minute` (keys compared trimmed and in lower case).
pub open spec fn time_point_set(
    old: Seq<AutomationConfigEntry>,
    hour: u8,
    minute: u8,
    new: Seq<AutomationConfigEntry>,
) -> bool {
    &&& new.len() == old.len()
    &&& forall|i: int|
        0 <= i < old.len() ==> {
            &&& (#[trigger] new[i]).key == old[i].key
            &&& if key_token(old[i].key@) == "hour"@ {
                new[i].value matches AutomationConfigValue::Number(s) && s@ == decimal(hour as nat)
            } else if key_token(old[i].key@) == "minute"@ {
                new[i].value matches AutomationConfigValue::Number(s) && s@ == decimal(minute as nat)
            } else {
                new[i].value == old[i].value
            }
        }
}

/// `new` is the setting `old` after `edit`.  A time point is set only in an object and a
/// day toggled only in a list; otherwise, and for a conversion that does not apply, the
/// setting stays as it is.
pub open spec fn edit_result(old: AutomationConfigValue, edit: ConfigEdit, new: AutomationConfigValue) -> bool {
    match edit {
        ConfigEdit::SetString(s) => new == AutomationConfigValue::String(s),
        ConfigEdit::SetNumber(s) => new == AutomationConfigValue::Number(s),
        ConfigEdit::SetBool(b) => new == AutomationConfigValue::Bool(b),
        ConfigEdit::SetTimePoint(h, m) => match old {
            AutomationConfigValue::Object(es) => new matches AutomationConfigValue::Object(ns) && time_point_set(
                es@,
                h,
                m,
                ns@,
            ),
            _ => new == old,
        },
        ConfigEdit::ConvertKind(k) => match converted_scalar(old, k@) {
            Some(parts) => scalar_parts(new) == Some(parts),
            None => new == old,
        },
        ConfigEdit::ToggleWeekday(d) => match old {
            AutomationConfigValue::Array(vs) => new matches AutomationConfigValue::Array(ns) && weekday_toggled(
                vs@,
                d as nat,
                ns@,
            ),
            _ => new == old,
        },
    }
}

fn set_time_point_entries(entries: Vec<AutomationConfigEntry>, hour: u8, minute: u8) -> (r: Vec<AutomationConfigEntry>)
    ensures
        time_point_set(entries@, hour, minute, r@),
{
    let ghost initial = entries@;
    let mut rest = entries;
    let mut out: Vec<AutomationConfigEntry> = Vec::new();
    proof {
        reveal_strlit("hour");
        reveal_strlit("minute");
    }
    while rest.len() > 0
        invariant
            out@.len() + rest@.len() == initial.len(),
            rest@ == initial.skip(out@.len() as int),
            time_point_set(initial.take(out@.len() as int), hour, minute, out@),
        decreases rest.len(),
    {
        let ghost j = out@.len() as int;
        let e = rest.remove(0);
        assert(rest@ =~= initial.skip(j + 1));
        assert(e == initial[j]);
        let k = key_token_of(e.key.as_str());
        let entry = if str_eq(k.as_str(), "hour") {
            AutomationConfigEntry { key: e.key, value: AutomationConfigValue::Number(decimal_string(hour as u64)) }
        } else if str_eq(k.as_str(), "minute") {
            AutomationConfigEntry { key: e.key, value: AutomationConfigValue::Number(decimal_string(minute as u64)) }
        } else {
            e
        };
        let ghost prev = out@;
        out.push(entry);
        assert forall|i: int| 0 <= i < initial.take(j + 1).len() implies {
            &&& (#[trigger] out@[i]).key == initial.take(j + 1)[i].key
            &&& if key_token(initial.take(j + 1)[i].key@) == "hour"@ {
                out@[i].value matches AutomationConfigValue::Number(s) && s@ == decimal(hour as nat)
            } else if key_token(initial.take(j + 1)[i].key@) == "minute"@ {
                out@[i].value matches AutomationConfigValue::Number(s) && s@ == decimal(minute as nat)
            } else {
                out@[i].value == initial.take(j + 1)[i].value
            }
        } by {
            if i < j {
                assert(out@[i] == prev[i]);
                assert(initial.take(j + 1)[i] == initial.take(j)[i]);
            }
        }
    }
    assert(initial.take(initial.len() as int) =~= initial);
    out
}

/// Applies an edit to one setting.
pub fn apply_config_edit(value: AutomationConfigValue, edit: &ConfigEdit) -> (r: AutomationConfigValue)
    ensures
        edit_result(value, *edit, r),
{
    match edit {
        ConfigEdit::SetString(s) => AutomationConfigValue::String(s.clone()),
        ConfigEdit::SetNumber(s) => AutomationConfigValue::Number(s.clone()),
        ConfigEdit::SetBool(b) => AutomationConfigValue::Bool(*b),
        ConfigEdit::SetTimePoint(h, m) => match value {
            AutomationConfigValue::Object(es) => AutomationConfigValue::Object(set_time_point_entries(es, *h, *m)),
            other => other,
        },
        ConfigEdit::ConvertKind(k) => match convert_scalar_kind(&value, k.as_str()) {
            Some(v) => v,
            None => value,
        },
        ConfigEdit::ToggleWeekday(d) => match value {
            AutomationConfigValue::Array(vs) => AutomationConfigValue::Array(toggle_weekday_values(vs, *d)),
            other => other,
        },
    }
}


/// Entry `i` is the first one with key `key` (keys compared exactly).
pub open spec fn is_first_key(entries: Seq<AutomationConfigEntry>, key: Seq<char>, i: int) -> bool {
    &&& 0 <= i < entries.len()
    &&& entries[i].key@ == key
    &&& forall|j: int| 0 <= j < i ==> (#[trigger] entries[j]).key@ != key
}

/// The position of the first entry with key `key`, if there is one.
pub open spec fn key_position(entries: Seq<AutomationConfigEntry>, key: Seq<char>) -> Option<int> {
    if exists|i: int| is_first_key(entries, key, i) {
        Some(choose|i: int| is_first_key(entries, key, i))
    } else {
        None
    }
}

proof fn lemma_key_position(entries: Seq<AutomationConfigEntry>, key: Seq<char>, i: int)
    requires
        is_first_key(entries, key, i),
    ensures
        key_position(entries, key) == Some(i),
{
    let c = choose|c: int| is_first_key(entries, key, c);
    assert(is_first_key(entries, key, c));
    if c < i {
        assert(entries[c].key@ != key);
    } else if c > i {
        assert(entries[i].key@ != key);
    }
}

/// The setting a path leads to: a key picks the first member of an object with that
/// key, an index picks an item of a list.
pub open spec fn value_at_path(root: AutomationConfigValue, path: Seq<ConfigPathSegment>) -> Option<AutomationConfigValue>
    decreases path.len(),
{
    if path.len() == 0 {
        Some(root)
    } else {
        match (root, path[0]) {
            (AutomationConfigValue::Object(es), ConfigPathSegment::Key(k)) => match key_position(es@, k@) {
                Some(i) => value_at_path(es@[i].value, path.drop_first()),
                None => None,
            },
            (AutomationConfigValue::Array(vs), ConfigPathSegment::Index(n)) => if n < vs@.len() {
                value_at_path(vs@[n as int], path.drop_first())
            } else {
                None
            },
            _ => None,
        }
    }
}

/// `new` is `old` with the setting at `path` changed by `edit` and all else as it was;
/// when the path leads nowhere, `new` is `old`.
pub open spec fn edited_at(
    old: AutomationConfigValue,
    path: Seq<ConfigPathSegment>,
    edit: ConfigEdit,
    new: AutomationConfigValue,
) -> bool
    decreases path.len(),
{
    if value_at_path(old, path) is None {
        new == old
    } else if path.len() == 0 {
        edit_result(old, edit, new)
    } else {
        match (old, path[0]) {
            (AutomationConfigValue::Object(es), ConfigPathSegment::Key(k)) => match key_position(es@, k@) {
                Some(i) => new matches AutomationConfigValue::Object(ns) && ns@.len() == es@.len() && (forall|j: int|
                    0 <= j < es@.len() && j != i ==> #[trigger] ns@[j] == es@[j]) && ns@[i].key == es@[i].key
                    && edited_at(es@[i].value, path.drop_first(), edit, ns@[i].value),
                None => new == old,
            },
            (AutomationConfigValue::Array(vs), ConfigPathSegment::Index(n)) => if n < vs@.len() {
                new matches AutomationConfigValue::Array(ns) && ns@.len() == vs@.len() && (forall|j: int|
                    0 <= j < vs@.len() && j != n ==> #[trigger] ns@[j] == vs@[j]) && edited_at(
                    vs@[n as int],
                    path.drop_first(),
                    edit,
                    ns@[n as int],
                )
            } else {
                new == old
            },
            _ => new == old,
        }
    }
}

/// The position of the first entry with key `key`.
fn find_key(entries: &Vec<AutomationConfigEntry>, key: &String) -> (r: Option<usize>)
    ensures
        match r {
            Some(i) => is_first_key(entries@, key@, i as int) && key_position(entries@, key@) == Some(i as int),
            None => key_position(entries@, key@) is None,
        },
{
    let mut i: usize = 0;
    while i < entries.len()
        invariant
            i <= entries@.len(),
            forall|j: int| 0 <= j < i ==> (#[trigger] entries@[j]).key@ != key@,
        decreases entries.len() - i,
    {
        if str_eq(entries[i].key.as_str(), key.as_str()) {
            proof {
                lemma_key_position(entries@, key@, i as int);
            }
            return Some(i);
        }
        i += 1;
    }
    assert(!exists|c: int| is_first_key(entries@, key@, c));
    None
}

/// Whether the rest of `path` from step `depth` leads to a setting inside `root`.
fn path_resolves(root: &AutomationConfigValue, path: &Vec<ConfigPathSegment>, depth: usize) -> (r: bool)
    requires
        depth <= path@.len(),
    ensures
        r == value_at_path(*root, path@.skip(depth as int)) is Some,
    decreases path@.len() - depth,
{
    if depth == path.len() {
        return true;
    }
    let ghost rest = path@.skip(depth as int);
    assert(rest[0] == path@[depth as int]);
    assert(rest.drop_first() =~= path@.skip(depth + 1));
    match (root, &path[depth]) {
        (AutomationConfigValue::Object(es), ConfigPathSegment::Key(k)) => match find_key(es, k) {
            Some(i) => path_resolves(&es[i].value, path, depth + 1),
            None => false,
        },
        (AutomationConfigValue::Array(vs), ConfigPathSegment::Index(n)) => {
            if *n < vs.len() {
                path_resolves(&vs[*n], path, depth + 1)
            } else {
                false
            }
        },
        _ => false,
    }
}

fn edit_from(root: AutomationConfigValue, path: &Vec<ConfigPathSegment>, depth: usize, edit: &ConfigEdit) -> (r: AutomationConfigValue)
    requires
        depth <= path@.len(),
        value_at_path(root, path@.skip(depth as int)) is Some,
    ensures
        edited_at(root, path@.skip(depth as int), *edit, r),
    decreases path@.len() - depth,
{
    if depth == path.len() {
        assert(path@.skip(depth as int).len() == 0);
        return apply_config_edit(root, edit);
    }
    let ghost rest = path@.skip(depth as int);
    assert(rest[0] == path@[depth as int]);
    assert(rest.drop_first() =~= path@.skip(depth + 1));
    match root {
        AutomationConfigValue::Object(es) => match &path[depth] {
            ConfigPathSegment::Key(k) => {
                let i = match find_key(&es, k) {
                    Some(i) => i,
                    None => {
                        return AutomationConfigValue::Object(es);
                    },
                };
                let ghost old_es = es@;
                let mut es = es;
                let child = es.remove(i);
                let value = edit_from(child.value, path, depth + 1, edit);
                es.insert(i, AutomationConfigEntry { key: child.key, value });
                assert forall|j: int| 0 <= j < old_es.len() && j != i implies #[trigger] es@[j] == old_es[j] by {
                    if j < i {
                        assert(es@[j] == old_es[j]);
                    } else {
                        assert(es@[j] == old_es[j]);
                    }
                }
                AutomationConfigValue::Object(es)
            },
            ConfigPathSegment::Index(_) => AutomationConfigValue::Object(es),
        },
        AutomationConfigValue::Array(vs) => match &path[depth] {
            ConfigPathSegment::Index(n) => {
                let n = *n;
                if n >= vs.len() {
                    return AutomationConfigValue::Array(vs);
                }
                let ghost old_vs = vs@;
                let mut vs = vs;
                let child = vs.remove(n);
                let value = edit_from(child, path, depth + 1, edit);
                vs.insert(n, value);
                assert forall|j: int| 0 <= j < old_vs.len() && j != n implies #[trigger] vs@[j] == old_vs[j] by {
                    assert(vs@[j] == old_vs[j]);
                }
                AutomationConfigValue::Array(vs)
            },
            ConfigPathSegment::Key(_) => AutomationConfigValue::Array(vs),
        },
        other => other,
    }
}

/// Changes the setting at `path` inside `root` by `edit`; a path that leads nowhere
/// leaves `root` as it is.
pub fn edit_config_at_path(root: AutomationConfigValue, path: &Vec<ConfigPathSegment>, edit: &ConfigEdit) -> (r: AutomationConfigValue)
    ensures
        edited_at(root, path@, *edit, r),
{
    assert(path@.skip(0) =~= path@);
    if path_resolves(&root, path, 0) {
        edit_from(root, path, 0, edit)
    } else {
        root
    }
}


proof fn lemma_same_keys(es: Seq<AutomationConfigEntry>, ns: Seq<AutomationConfigEntry>, key: Seq<char>)
    requires
        ns.len() == es.len(),
        forall|j: int| 0 <= j < es.len() ==> (#[trigger] ns[j]).key == es[j].key,
    ensures
        key_position(ns, key) == key_position(es, key),
{
    if exists|c: int| is_first_key(es, key, c) {
        let c = choose|c: int| is_first_key(es, key, c);
        assert(is_first_key(ns, key, c)) by {
            assert forall|j: int| 0 <= j < c implies (#[trigger] ns[j]).key@ != key by {
                assert(ns[j].key == es[j].key);
            }
            assert(ns[c].key == es[c].key);
        }
        lemma_key_position(es, key, c);
        lemma_key_position(ns, key, c);
    } else if exists|c: int| is_first_key(ns, key, c) {
        let c = choose|c: int| is_first_key(ns, key, c);
        assert(is_first_key(es, key, c)) by {
            assert forall|j: int| 0 <= j < c implies (#[trigger] es[j]).key@ != key by {
                assert(ns[j].key == es[j].key);
            }
            assert(ns[c].key == es[c].key);
        }
    }
}

/// Reading back an edit: when `path` leads to a setting, the setting found at `path`
/// after the edit is that setting changed by the edit; when it leads nowhere, the
/// configuration is unchanged.
pub proof fn lemma_edit_then_read(
    old: AutomationConfigValue,
    path: Seq<ConfigPathSegment>,
    edit: ConfigEdit,
    new: AutomationConfigValue,
)
    requires
        edited_at(old, path, edit, new),
    ensures
        match value_at_path(old, path) {
            Some(v) => value_at_path(new, path) matches Some(w) && edit_result(v, edit, w),
            None => new == old,
        },
    decreases path.len(),
{
    if path.len() > 0 {
        match (old, path[0]) {
            (AutomationConfigValue::Object(es), ConfigPathSegment::Key(k)) => match key_position(es@, k@) {
                Some(i) => {
                    let ns = new->Object_0;
                    assert forall|j: int| 0 <= j < es@.len() implies (#[trigger] ns@[j]).key == es@[j].key by {
                        if j != i {
                            assert(ns@[j] == es@[j]);
                        }
                    }
                    lemma_same_keys(es@, ns@, k@);
                    lemma_edit_then_read(es@[i].value, path.drop_first(), edit, ns@[i].value);
                    assert(value_at_path(new, path) == value_at_path(ns@[i].value, path.drop_first()));
                    assert(value_at_path(old, path) == value_at_path(es@[i].value, path.drop_first()));
                },
                None => {},
            },
            (AutomationConfigValue::Array(vs), ConfigPathSegment::Index(n)) => {
                if n < vs@.len() {
                    let ns = new->Array_0;
                    lemma_edit_then_read(vs@[n as int], path.drop_first(), edit, ns@[n as int]);
                    assert(value_at_path(new, path) == value_at_path(ns@[n as int], path.drop_first()));
                }
            },
            _ => {},
        }
    }
}

/// Two path steps that pick the same member or item.
pub open spec fn same_segment(a: ConfigPathSegment, b: ConfigPathSegment) -> bool {
    match (a, b) {
        (ConfigPathSegment::Key(x), ConfigPathSegment::Key(y)) => x@ == y@,
        (ConfigPathSegment::Index(m), ConfigPathSegment::Index(n)) => m == n,
        _ => false,
    }
}

/// `q` leaves `p` at some step: neither path is a prefix of the other.
pub open spec fn branches_off(p: Seq<ConfigPathSegment>, q: Seq<ConfigPathSegment>) -> bool
    decreases p.len(),
{
    p.len() > 0 && q.len() > 0 && (!same_segment(p[0], q[0]) || branches_off(p.drop_first(), q.drop_first()))
}

/// An edit touches nothing else: a setting on a path that branches off the edited path
/// reads the same before and after the edit.
pub proof fn lemma_edit_keeps_other_paths(
    old: AutomationConfigValue,
    path: Seq<ConfigPathSegment>,
    edit: ConfigEdit,
    new: AutomationConfigValue,
    other: Seq<ConfigPathSegment>,
)
    requires
        edited_at(old, path, edit, new),
        branches_off(path, other),
    ensures
        value_at_path(new, other) == value_at_path(old, other),
    decreases path.len(),
{
    match (old, path[0]) {
        (AutomationConfigValue::Object(es), ConfigPathSegment::Key(k)) => match key_position(es@, k@) {
            Some(i) => {
                let ns = new->Object_0;
                assert forall|j: int| 0 <= j < es@.len() implies (#[trigger] ns@[j]).key == es@[j].key by {
                    if j != i {
                        assert(ns@[j] == es@[j]);
                    }
                }
                match other[0] {
                    ConfigPathSegment::Key(k2) => {
                        lemma_same_keys(es@, ns@, k2@);
                        if same_segment(path[0], other[0]) {
                            assert(k2@ == k@);
                            lemma_edit_keeps_other_paths(
                                es@[i].value,
                                path.drop_first(),
                                edit,
                                ns@[i].value,
                                other.drop_first(),
                            );
                        } else {
                            match key_position(es@, k2@) {
                                Some(i2) => {
                                    let c = choose|c: int| is_first_key(es@, k@, c);
                                    assert(is_first_key(es@, k@, c));
                                    let c2 = choose|c: int| is_first_key(es@, k2@, c);
                                    assert(is_first_key(es@, k2@, c2));
                                    assert(i2 != i);
                                    assert(ns@[i2] == es@[i2]);
                                },
                                None => {},
                            }
                        }
                    },
                    ConfigPathSegment::Index(_) => {},
                }
            },
            None => {},
        },
        (AutomationConfigValue::Array(vs), ConfigPathSegment::Index(n)) => {
            if n < vs@.len() {
                let ns = new->Array_0;
                match other[0] {
                    ConfigPathSegment::Index(n2) => {
                        if n2 == n {
                            lemma_edit_keeps_other_paths(
                                vs@[n as int],
                                path.drop_first(),
                                edit,
                                ns@[n as int],
                                other.drop_first(),
                            );
                        } else if n2 < vs@.len() {
                            assert(ns@[n2 as int] == vs@[n2 as int]);
                        }
                    },
                    ConfigPathSegment::Key(_) => {},
                }
            }
        },
        _ => {},
    }
}

} // verus!
