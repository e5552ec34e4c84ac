use seasons::automation::{
    apply_config_edit, config_value_summary, convert_scalar_kind, display_time_value, edit_config_at_path,
    encode_weekday, humanize_config_label, infer_weekday_style, is_read_only_config_key, is_time_like_label,
    looks_like_time_value, nested_time_point_value, should_render_config_key, time_point_value,
    toggle_weekday_values, weekday_entries, weekday_index, weekday_label, ConfigEdit, ConfigPathSegment,
    TimePickerMode, TimePickerState, TimePickerTarget, TimePointValue, WeekdayStyle,
};
use seasons::hue::models::{AutomationConfigEntry, AutomationConfigValue};

fn entry(key: &str, value: AutomationConfigValue) -> AutomationConfigEntry {
    AutomationConfigEntry { key: key.to_string(), value }
}

fn string(value: &str) -> AutomationConfigValue {
    AutomationConfigValue::String(value.to_string())
}

fn number(value: &str) -> AutomationConfigValue {
    AutomationConfigValue::Number(value.to_string())
}

fn time_object(hour: &str, minute: &str) -> AutomationConfigValue {
    AutomationConfigValue::Object(vec![
        entry("type", string("time")),
        entry("hour", number(hour)),
        entry("minute", number(minute)),
    ])
}

fn key(k: &str) -> ConfigPathSegment {
    ConfigPathSegment::Key(k.to_string())
}

fn sample_config() -> AutomationConfigValue {
    AutomationConfigValue::Object(vec![
        entry("when", time_object("7", "30")),
        entry("days", AutomationConfigValue::Array(vec![string("mon"), string("wed")])),
        entry("fade", number("12")),
        entry("when", string("shadowed")),
    ])
}

#[test]
fn config_keys_shown_and_read_only() {
    assert!(!should_render_config_key(" RID "));
    assert!(should_render_config_key("rtype"));
    assert!(is_read_only_config_key("RType"));
    assert!(!is_read_only_config_key("name"));
}

#[test]
fn value_summaries() {
    assert_eq!(config_value_summary(&string("x")), "x");
    assert_eq!(config_value_summary(&number("3.5")), "3.5");
    assert_eq!(config_value_summary(&AutomationConfigValue::Bool(false)), "false");
    assert_eq!(config_value_summary(&AutomationConfigValue::Null), "null");
    assert_eq!(config_value_summary(&AutomationConfigValue::Object(vec![])), "object");
    assert_eq!(config_value_summary(&AutomationConfigValue::Array(vec![string("a")])), "1 item");
    assert_eq!(config_value_summary(&AutomationConfigValue::Array(vec![])), "0 items");
}

#[test]
fn time_labels_and_values() {
    assert!(is_time_like_label("Sunrise offset"));
    assert!(is_time_like_label("end"));
    assert!(!is_time_like_label("brightness"));
    assert!(looks_like_time_value(" 07:30 "));
    assert!(looks_like_time_value("07:30:15"));
    assert!(!looks_like_time_value("7:30"));
    assert!(!looks_like_time_value("07:30:1"));
    assert!(!looks_like_time_value("0730"));
    assert_eq!(display_time_value(" 07:30:15 "), "07:30");
}

#[test]
fn time_picker_from_strings_and_objects() {
    let picker = TimePickerState::from_string_value("Start".to_string(), vec![key("start")], " 07:05:00 ").unwrap();
    assert_eq!(picker.hour, 7);
    assert_eq!(picker.minute, 5);
    assert!(picker.include_seconds);
    assert_eq!(picker.mode, TimePickerMode::Hour);
    assert_eq!(picker.target, TimePickerTarget::StringValue);
    assert_eq!(picker.formatted_display(), "07:05");
    assert_eq!(picker.formatted_value(), "07:05:00");
    assert!(TimePickerState::from_string_value("x".to_string(), vec![], "25").is_none());
    assert!(TimePickerState::from_string_value("x".to_string(), vec![], "300:10").is_none());
    let object = TimePickerState::from_time_point("When".to_string(), vec![key("when")], 18, 9);
    assert_eq!(object.target, TimePickerTarget::TimePointObject);
    assert_eq!(object.formatted_value(), "18:09");
}

#[test]
fn time_points_need_a_time_type() {
    let AutomationConfigValue::Object(entries) = time_object("6", "45") else { unreachable!() };
    assert_eq!(time_point_value(&entries), Some(TimePointValue { hour: 6, minute: 45 }));
    let untyped = vec![entry("hour", number("6")), entry("minute", number("45"))];
    assert_eq!(time_point_value(&untyped), None);
    let bad = vec![entry("type", string("time")), entry("hour", string("6")), entry("minute", number("1"))];
    assert_eq!(time_point_value(&bad), None);
}

#[test]
fn nested_time_point_is_the_first_object_holding_one() {
    let entries = vec![
        entry("label", string("x")),
        entry("other", AutomationConfigValue::Object(vec![entry("a", number("1"))])),
        entry("when", time_object("21", "0")),
        entry("later", time_object("22", "0")),
    ];
    let found = nested_time_point_value(&entries).unwrap();
    assert_eq!(found.label, "when");
    assert_eq!(found.path, vec![key("when")]);
    assert_eq!(found.time_point, TimePointValue { hour: 21, minute: 0 });
    let without = vec![
        entry("label", string("x")),
        entry("other", AutomationConfigValue::Object(vec![entry("a", number("1"))])),
        entry("flat", string("07:00")),
    ];
    assert!(nested_time_point_value(&without).is_none());
}

#[test]
fn weekdays_are_recognised_and_encoded() {
    assert_eq!(weekday_index(" Thurs "), Some(4));
    assert_eq!(weekday_index("SUNDAY"), Some(0));
    assert_eq!(weekday_index("someday"), None);
    assert_eq!(weekday_label(0), "S");
    assert_eq!(weekday_label(4), "T");
    assert_eq!(weekday_label(9), "?");
    assert_eq!(infer_weekday_style(&vec![string("mon")]), WeekdayStyle::ShortLower);
    assert_eq!(infer_weekday_style(&vec![AutomationConfigValue::Null, string("monday")]), WeekdayStyle::LongLower);
    assert_eq!(infer_weekday_style(&vec![]), WeekdayStyle::LongLower);
    assert_eq!(encode_weekday(3, WeekdayStyle::ShortLower), "wed");
    assert_eq!(encode_weekday(3, WeekdayStyle::LongLower), "wednesday");
    assert_eq!(encode_weekday(11, WeekdayStyle::LongLower), "sunday");
}

#[test]
fn toggling_a_weekday_adds_or_removes_it() {
    let removed = toggle_weekday_values(vec![string("mon"), string("Monday"), string("fri")], 1);
    assert_eq!(removed, vec![string("fri")]);
    let added = toggle_weekday_values(vec![string("mon")], 5);
    assert_eq!(added, vec![string("mon"), string("fri")]);
    let added_long = toggle_weekday_values(vec![], 0);
    assert_eq!(added_long, vec![string("sunday")]);
}

#[test]
fn weekday_objects_come_out_in_day_order() {
    let entries = vec![
        entry("fri", AutomationConfigValue::Bool(true)),
        entry("Sunday", AutomationConfigValue::Bool(false)),
        entry("mon", AutomationConfigValue::Bool(true)),
        entry("sun", AutomationConfigValue::Bool(true)),
    ];
    assert_eq!(
        weekday_entries(&entries),
        Some(vec![
            (0, "Sunday".to_string(), false),
            (0, "sun".to_string(), true),
            (1, "mon".to_string(), true),
            (5, "fri".to_string(), true),
        ])
    );
    assert_eq!(weekday_entries(&vec![]), None);
    assert_eq!(weekday_entries(&vec![entry("mon", number("1"))]), None);
    assert_eq!(weekday_entries(&vec![entry("holiday", AutomationConfigValue::Bool(true))]), None);
}

#[test]
fn labels_are_humanized() {
    assert_eq!(humanize_config_label("transition_time"), "Transition Time");
    assert_eq!(humanize_config_label("__fade-in..duration_"), "Fade In Duration");
    assert_eq!(humanize_config_label("x"), "X");
    assert_eq!(humanize_config_label("été_2"), "été 2");
    assert_eq!(humanize_config_label("_-."), "");
}

#[test]
fn scalar_kinds_convert() {
    assert_eq!(convert_scalar_kind(&AutomationConfigValue::Bool(true), "string"), Some(string("true")));
    assert_eq!(convert_scalar_kind(&AutomationConfigValue::Bool(false), "number"), Some(number("0")));
    assert_eq!(convert_scalar_kind(&string(" Yes "), "bool"), Some(AutomationConfigValue::Bool(true)));
    assert_eq!(convert_scalar_kind(&number(" 0 "), "bool"), Some(AutomationConfigValue::Bool(false)));
    assert_eq!(convert_scalar_kind(&AutomationConfigValue::Null, "number"), Some(number("0")));
    assert_eq!(convert_scalar_kind(&number("4"), "null"), Some(AutomationConfigValue::Null));
    assert_eq!(convert_scalar_kind(&AutomationConfigValue::Object(vec![]), "string"), None);
    assert_eq!(convert_scalar_kind(&number("4"), "list"), None);
}

#[test]
fn edits_apply_to_one_setting() {
    assert_eq!(apply_config_edit(number("1"), &ConfigEdit::SetString("x".to_string())), string("x"));
    assert_eq!(apply_config_edit(string("1"), &ConfigEdit::SetBool(true)), AutomationConfigValue::Bool(true));
    assert_eq!(apply_config_edit(string("a"), &ConfigEdit::SetTimePoint(1, 2)), string("a"));
    assert_eq!(
        apply_config_edit(time_object("7", "30"), &ConfigEdit::SetTimePoint(8, 5)),
        time_object("8", "5")
    );
    assert_eq!(
        apply_config_edit(string("2"), &ConfigEdit::ConvertKind("number".to_string())),
        number("2")
    );
    assert_eq!(
        apply_config_edit(AutomationConfigValue::Object(vec![]), &ConfigEdit::ConvertKind("bool".to_string())),
        AutomationConfigValue::Object(vec![])
    );
    assert_eq!(apply_config_edit(number("3"), &ConfigEdit::ToggleWeekday(1)), number("3"));
}

#[test]
fn edits_reach_the_setting_at_their_path() {
    let edited = edit_config_at_path(sample_config(), &vec![key("when")], &ConfigEdit::SetTimePoint(6, 0));
    let AutomationConfigValue::Object(entries) = &edited else { panic!("object expected") };
    assert_eq!(entries[0].value, time_object("6", "0"));
    // Only the first member with the key is edited; the rest is untouched.
    assert_eq!(entries[3].value, string("shadowed"));
    assert_eq!(entries[2].value, number("12"));

    let toggled = edit_config_at_path(sample_config(), &vec![key("days")], &ConfigEdit::ToggleWeekday(3));
    let AutomationConfigValue::Object(entries) = &toggled else { panic!("object expected") };
    assert_eq!(entries[1].value, AutomationConfigValue::Array(vec![string("mon")]));

    let deep = edit_config_at_path(
        sample_config(),
        &vec![key("days"), ConfigPathSegment::Index(1)],
        &ConfigEdit::SetString("fri".to_string()),
    );
    let AutomationConfigValue::Object(entries) = &deep else { panic!("object expected") };
    assert_eq!(entries[1].value, AutomationConfigValue::Array(vec![string("mon"), string("fri")]));

    let minute = edit_config_at_path(
        sample_config(),
        &vec![key("when"), key("minute")],
        &ConfigEdit::SetNumber("45".to_string()),
    );
    assert_eq!(
        edit_config_at_path(sample_config(), &vec![key("when")], &ConfigEdit::SetTimePoint(7, 45)),
        minute
    );
}

#[test]
fn paths_that_lead_nowhere_change_nothing() {
    for path in [
        vec![key("missing")],
        vec![ConfigPathSegment::Index(0)],
        vec![key("days"), ConfigPathSegment::Index(5)],
        vec![key("fade"), key("inner")],
        vec![key("days"), key("mon")],
    ] {
        assert_eq!(
            edit_config_at_path(sample_config(), &path, &ConfigEdit::SetBool(true)),
            sample_config()
        );
    }
    assert_eq!(
        edit_config_at_path(number("1"), &vec![], &ConfigEdit::SetBool(false)),
        AutomationConfigValue::Bool(false)
    );
}
