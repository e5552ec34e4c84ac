use seasons::hue::models::{AudioSyncColorPalette, AudioSyncSpeedMode, Group, GroupKind, Light, Sensor};
use seasons::theme::{ThemeMode, ThemePalette};
use seasons::ui_rules::{
    audio_sync_color_palette_value, audio_sync_speed_mode_value, brightness_label, brightness_percent,
    classify_scene_tone, derive_placement, device_icon_class, is_plug_device, is_switch_sensor,
    parse_mode, parse_palette, parse_palette_option, parse_speed_mode_option, saturation_percent,
    scene_name_hash, sensor_icon_class, serialize_mode, serialize_palette, NoticeTone, SceneToneKind,
    UiNotice,
};

fn light(light_type: Option<&str>) -> Light {
    Light {
        id: "1".to_string(),
        name: "Lamp".to_string(),
        is_on: Some(true),
        brightness: Some(100),
        saturation: None,
        hue: None,
        xy_bits: None,
        reachable: Some(true),
        light_type: light_type.map(str::to_string),
        model_id: None,
    }
}

fn sensor(sensor_type: Option<&str>) -> Sensor {
    Sensor {
        id: "s".to_string(),
        name: "Sensor".to_string(),
        sensor_type: sensor_type.map(str::to_string),
        model_id: None,
        reachable: None,
        battery: None,
        last_updated: None,
        summary: None,
    }
}

fn group(id: &str, name: &str, kind: GroupKind, lights: &[&str]) -> Group {
    Group {
        id: id.to_string(),
        name: name.to_string(),
        kind,
        light_ids: lights.iter().map(|s| s.to_string()).collect(),
    }
}

#[test]
fn brightness_labels_round_down() {
    assert_eq!(brightness_label(254), "100%");
    assert_eq!(brightness_label(127), "50%");
    assert_eq!(brightness_label(1), "0%");
    assert_eq!(brightness_label(255), "100%");
}

#[test]
fn composer_percentages_match_float_rounding_for_every_byte() {
    for value in 0..=255u8 {
        let expected = ((f32::from(value) / 254.0) * 100.0).round() as u8;
        assert_eq!(brightness_percent(value), expected, "brightness {value}");
        assert_eq!(saturation_percent(value), expected, "saturation {value}");
    }
}

#[test]
fn device_icons_follow_the_light_type() {
    assert_eq!(device_icon_class(&light(Some("LightStrip"))), "fa-solid fa-grip-lines-vertical");
    assert_eq!(device_icon_class(&light(Some("On/Off plug-in unit"))), "fa-solid fa-plug");
    assert_eq!(device_icon_class(&light(Some("Extended color light"))), "fa-solid fa-lightbulb");
    assert_eq!(device_icon_class(&light(None)), "fa-solid fa-lightbulb");
    assert!(is_plug_device(&light(Some("Smart PLUG"))));
    assert!(!is_plug_device(&light(None)));
}

#[test]
fn sensor_kinds_and_icons() {
    assert!(is_switch_sensor(&sensor(Some("ZLLSwitch"))));
    assert!(is_switch_sensor(&sensor(Some("ZGPTap"))));
    assert!(is_switch_sensor(&sensor(Some("Button"))));
    assert!(!is_switch_sensor(&sensor(Some("ZLLPresence"))));
    assert!(!is_switch_sensor(&sensor(None)));
    assert_eq!(sensor_icon_class(&sensor(Some("MotionSensor"))), "fa-solid fa-person-rays");
    assert_eq!(sensor_icon_class(&sensor(Some("ZLLTemperature"))), "fa-solid fa-temperature-half");
    assert_eq!(sensor_icon_class(&sensor(Some("ZGPSwitch"))), "fa-solid fa-toggle-on");
    assert_eq!(sensor_icon_class(&sensor(Some("ZLLLightLevel"))), "fa-solid fa-sun");
    assert_eq!(sensor_icon_class(&sensor(Some("Daylight"))), "fa-solid fa-sun");
    assert_eq!(sensor_icon_class(&sensor(None)), "fa-solid fa-wave-square");
}

#[test]
fn placement_lists_sorted_zones_holding_the_light() {
    let groups = vec![
        group("1", "Upstairs", GroupKind::Zone, &["7", "8"]),
        group("2", "Bedroom", GroupKind::Room, &["7"]),
        group("3", "Desk", GroupKind::Zone, &["7"]),
        group("4", "Garden", GroupKind::Zone, &["9"]),
        group("5", "Attic", GroupKind::Room, &["7"]),
    ];
    let placement = derive_placement("7", &groups);
    assert_eq!(placement.zone_names, vec!["Desk".to_string(), "Upstairs".to_string()]);
    assert!(derive_placement("42", &groups).zone_names.is_empty());
}

#[test]
fn option_values_read_back() {
    for mode in [AudioSyncSpeedMode::Slow, AudioSyncSpeedMode::Medium, AudioSyncSpeedMode::High] {
        assert_eq!(parse_speed_mode_option(audio_sync_speed_mode_value(mode)), mode);
    }
    for palette in [
        AudioSyncColorPalette::CurrentRoom,
        AudioSyncColorPalette::Sunset,
        AudioSyncColorPalette::Aurora,
        AudioSyncColorPalette::Ocean,
        AudioSyncColorPalette::Rose,
        AudioSyncColorPalette::Mono,
        AudioSyncColorPalette::NeonPulse,
        AudioSyncColorPalette::Prism,
        AudioSyncColorPalette::VocalGlow,
        AudioSyncColorPalette::FireIce,
    ] {
        assert_eq!(parse_palette_option(audio_sync_color_palette_value(palette)), palette);
    }
    for mode in [ThemeMode::System, ThemeMode::Dark, ThemeMode::Light] {
        assert_eq!(parse_mode(serialize_mode(mode).to_string()), mode);
    }
    for palette in ThemePalette::all() {
        assert_eq!(parse_palette(serialize_palette(palette).to_string()), palette);
    }
}

#[test]
fn unknown_option_values_fall_back() {
    assert_eq!(parse_speed_mode_option("fast"), AudioSyncSpeedMode::Medium);
    assert_eq!(parse_palette_option("Sunset"), AudioSyncColorPalette::CurrentRoom);
    assert_eq!(parse_mode("DARK".to_string()), ThemeMode::System);
    assert_eq!(parse_palette("solarized".to_string()), ThemePalette::RosePine);
    assert_eq!(serialize_palette(ThemePalette::RosePine), "rose-pine");
}

#[test]
fn notices_have_tone_classes() {
    let notice = UiNotice::new(NoticeTone::Warning, "Title".to_string(), "Body".to_string());
    assert_eq!(notice.tone, NoticeTone::Warning);
    assert_eq!(notice.title, "Title");
    assert_eq!(notice.message, "Body");
    assert_eq!(UiNotice::error("t".to_string(), "m".to_string()).tone, NoticeTone::Error);
    assert_eq!(UiNotice::success("t".to_string(), "m".to_string()).tone, NoticeTone::Success);
    assert_eq!(UiNotice::info("t".to_string(), "m".to_string()).tone, NoticeTone::Info);
    assert_eq!(NoticeTone::Error.class_name(), "is-error");
    assert_eq!(NoticeTone::Success.class_name(), "is-success");
    assert_eq!(NoticeTone::Warning.class_name(), "is-warning");
    assert_eq!(NoticeTone::Info.class_name(), "is-info");
}

#[test]
fn scene_names_pick_a_tone_family() {
    assert_eq!(classify_scene_tone("golden hour"), SceneToneKind::Warm);
    assert_eq!(classify_scene_tone("arctic aurora"), SceneToneKind::Cool);
    assert_eq!(classify_scene_tone("spring bloom"), SceneToneKind::Green);
    assert_eq!(classify_scene_tone("dimmed"), SceneToneKind::Night);
    assert_eq!(classify_scene_tone("reading"), SceneToneKind::Soft);
    assert_eq!(classify_scene_tone("party"), SceneToneKind::Neutral);
    // The first family listed wins.
    assert_eq!(classify_scene_tone("ocean sunset"), SceneToneKind::Warm);
    assert_eq!(classify_scene_tone("Sunset"), SceneToneKind::Neutral);
}

fn reference_hash(name: &str, factor: u32) -> u32 {
    name.bytes().fold(0_u32, |hash, byte| hash.wrapping_mul(factor).wrapping_add(u32::from(byte)))
}

#[test]
fn scene_name_hash_folds_the_bytes() {
    assert_eq!(scene_name_hash("", 37), 0);
    assert_eq!(scene_name_hash("a", 37), 97);
    assert_eq!(scene_name_hash("ab", 33), 97 * 33 + 98);
    for name in ["Relax", "Concentrate", "Sunset in the kitchen", "élan vital", "日本"] {
        assert_eq!(scene_name_hash(name, 37), reference_hash(name, 37));
        assert_eq!(scene_name_hash(name, 33), reference_hash(name, 33));
    }
}
