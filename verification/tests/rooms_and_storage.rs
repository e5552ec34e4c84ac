use seasons::app_state::{
    clear_bridge_connection, clear_room_order, config_dir, config_file_path, data_dir, data_file_path,
    load_bridge_connection, load_room_order, load_theme_preference, path_join, resolve_xdg_dir,
    save_bridge_connection, save_room_order, save_theme_preference, AppConfigFile, AppDataFile,
    SaveRoomOrderRequest,
};
use seasons::hue::color::{accent_lights, light_accent_source, room_accent_css, AccentSource, XyBits};
use seasons::hue::models::{Automation, Sensor, BridgeConnection, Group, GroupKind, Light, LightStateUpdate, Scene, SetLightStateRequest};
use seasons::hue::presets::{curated_room_scenes, preset_light_state};
use seasons::rooms::{
    brightness_state, finish_room_update, room_requests, room_toggle_state,
    addressed_requests, apply_light_update, apply_room_updates, apply_state_update, build_room_sections,
    collect_room_context, preset_light_requests, snapshot_room_lights,
};
use seasons::ui_rules::{automations_by_name, lights_by_name, sensors_by_name, NoticeTone};
use seasons::theme::{ThemeMode, ThemePalette, ThemePreference};

fn light(id: &str, name: &str, on: bool, brightness: u8) -> Light {
    Light {
        id: id.to_string(),
        name: name.to_string(),
        is_on: Some(on),
        brightness: Some(brightness),
        saturation: Some(10),
        hue: Some(100),
        xy_bits: Some([1, 2]),
        reachable: Some(true),
        light_type: None,
        model_id: None,
    }
}

fn room(id: &str, name: &str, lights: &[&str]) -> Group {
    Group {
        id: id.to_string(),
        name: name.to_string(),
        kind: GroupKind::Room,
        light_ids: lights.iter().map(|s| s.to_string()).collect(),
    }
}

fn scene(id: &str, name: &str, group: Option<&str>) -> Scene {
    Scene {
        id: id.to_string(),
        name: name.to_string(),
        group_id: group.map(str::to_string),
        light_count: 0,
        scene_type: None,
        preview_color_soft: None,
        preview_color_main: None,
        preview_color_deep: None,
    }
}

fn connection(ip: &str, user: &str) -> BridgeConnection {
    BridgeConnection { bridge_ip: ip.to_string(), username: user.to_string(), client_key: None, application_id: None }
}

fn request(id: &str, state: LightStateUpdate) -> SetLightStateRequest {
    SetLightStateRequest { bridge_ip: String::new(), username: String::new(), light_id: id.to_string(), state }
}

fn brightness_only(value: u8) -> LightStateUpdate {
    LightStateUpdate { on: None, brightness: Some(value), saturation: None, hue: None, transition_time: None }
}

#[test]
fn accepted_state_keeps_unset_fields_and_drops_xy_on_color_change() {
    let mut lamp = light("1", "Lamp", false, 20);
    apply_state_update(&mut lamp, &brightness_only(200));
    assert_eq!(lamp.brightness, Some(200));
    assert_eq!(lamp.is_on, Some(false));
    assert_eq!(lamp.xy_bits, Some([1, 2]));
    let color = LightStateUpdate { on: Some(true), brightness: None, saturation: None, hue: Some(9), transition_time: None };
    apply_state_update(&mut lamp, &color);
    assert_eq!(lamp.hue, Some(9));
    assert_eq!(lamp.is_on, Some(true));
    assert_eq!(lamp.xy_bits, None);
    let once = lamp.clone();
    apply_state_update(&mut lamp, &color);
    assert_eq!(lamp, once);
}

#[test]
fn snapshot_then_restore_brings_a_light_back() {
    let initial = light("1", "Lamp", true, 77);
    let snapshot = snapshot_room_lights(&vec![initial.clone()]);
    assert_eq!(snapshot.len(), 1);
    assert_eq!(snapshot[0].light_id, "1");
    assert_eq!(snapshot[0].state.transition_time, Some(4));
    let mut changed = initial.clone();
    apply_state_update(
        &mut changed,
        &LightStateUpdate { on: Some(false), brightness: Some(3), saturation: Some(200), hue: Some(5), transition_time: None },
    );
    apply_state_update(&mut changed, &snapshot[0].state);
    assert_eq!(changed.is_on, initial.is_on);
    assert_eq!(changed.brightness, initial.brightness);
    assert_eq!(changed.saturation, initial.saturation);
    assert_eq!(changed.hue, initial.hue);
}

#[test]
fn room_update_applies_the_last_request_per_light() {
    let lights = vec![light("1", "A", true, 10), light("2", "B", true, 20), light("3", "C", true, 30)];
    let requests = vec![
        request("2", brightness_only(50)),
        request("1", brightness_only(60)),
        request("2", brightness_only(70)),
        request("9", brightness_only(80)),
    ];
    let updated = apply_room_updates(lights, &requests);
    assert_eq!(updated.iter().map(|l| l.brightness).collect::<Vec<_>>(), vec![Some(60), Some(70), Some(30)]);
    assert_eq!(updated[2], light("3", "C", true, 30));
}

#[test]
fn light_update_changes_the_first_matching_light_only() {
    let mut lights = vec![light("1", "A", true, 10), light("1", "A again", true, 10), light("2", "B", true, 20)];
    apply_light_update(&mut lights, "1", &brightness_only(99));
    assert_eq!(lights[0].brightness, Some(99));
    assert_eq!(lights[1].brightness, Some(10));
    let before = lights.clone();
    apply_light_update(&mut lights, "missing", &brightness_only(1));
    assert_eq!(lights, before);
}

#[test]
fn preset_requests_address_every_room_light() {
    let lights = vec![light("4", "A", true, 1), light("5", "B", true, 1), light("6", "C", true, 1)];
    let bridge = connection("10.0.0.2", "user");
    let preset = curated_room_scenes()[0];
    let requests = preset_light_requests(&bridge, preset, &lights);
    assert_eq!(requests.len(), 3);
    for (index, request) in requests.iter().enumerate() {
        assert_eq!(request.bridge_ip, "10.0.0.2");
        assert_eq!(request.username, "user");
        assert_eq!(request.light_id, lights[index].id);
        assert_eq!(request.state, preset_light_state(preset, index, 3));
    }
    assert!(preset_light_requests(&bridge, preset, &vec![]).is_empty());
}

#[test]
fn snapshot_requests_get_the_bridge_address() {
    let states = vec![request("1", brightness_only(5)), request("2", brightness_only(6))];
    let addressed = addressed_requests(states, &connection("1.2.3.4", "me"));
    assert_eq!(addressed[1].bridge_ip, "1.2.3.4");
    assert_eq!(addressed[1].username, "me");
    assert_eq!(addressed[1].light_id, "2");
    assert_eq!(addressed[1].state, brightness_only(6));
}

#[test]
fn room_context_keeps_the_room_light_order() {
    let groups = vec![
        Group { kind: GroupKind::Zone, ..room("1", "Zone", &["a"]) },
        room("1", "Kitchen", &["c", "x", "a"]),
    ];
    let lights = vec![light("a", "A", true, 1), light("c", "C", true, 1)];
    let (found, room_lights) = collect_room_context(&groups, &lights, "1").unwrap();
    assert_eq!(found.name, "Kitchen");
    assert_eq!(room_lights.iter().map(|l| l.id.as_str()).collect::<Vec<_>>(), vec!["c", "a"]);
    assert!(collect_room_context(&groups, &lights, "2").is_none());
}

#[test]
fn sections_group_lights_by_room_and_collect_the_rest() {
    let lights = vec![
        light("1", "Spot", true, 100),
        light("2", "Ceiling", false, 51),
        light("3", "Lonely", true, 9),
        light("4", "Desk", true, 200),
    ];
    let groups = vec![
        room("10", "Study", &["4"]),
        room("11", "Living", &["1", "2"]),
        room("12", "Empty", &[]),
        Group { kind: GroupKind::Zone, ..room("13", "Zone", &["3"]) },
    ];
    let scenes = vec![scene("s2", "Relax", Some("11")), scene("s1", "Bright", Some("11")), scene("s3", "Loose", None)];
    let sections = build_room_sections(&lights, &groups, &scenes);
    assert_eq!(
        sections.iter().map(|s| s.id.as_str()).collect::<Vec<_>>(),
        vec!["11", "10", "unassigned"]
    );
    let living = &sections[0];
    assert_eq!(living.lights.iter().map(|l| l.id.as_str()).collect::<Vec<_>>(), vec!["2", "1"]);
    assert_eq!(living.scenes.iter().map(|s| s.id.as_str()).collect::<Vec<_>>(), vec!["s1", "s2"]);
    assert_eq!(living.active_light_count, 1);
    assert_eq!(living.average_brightness, 75);
    assert!(living.can_craft_scenes);
    let rest = &sections[2];
    assert_eq!(rest.name, "Unassigned");
    assert!(!rest.can_craft_scenes);
    assert_eq!(rest.lights.iter().map(|l| l.id.as_str()).collect::<Vec<_>>(), vec!["3"]);
    assert_eq!(rest.average_brightness, 0);
}

#[test]
fn saved_room_order_reads_back_per_connection() {
    let home = connection(" 10.0.0.2 ", "user");
    let same = connection("10.0.0.2", " user ");
    let other = connection("10.0.0.3", "user");
    let data = AppDataFile::new();
    assert!(load_room_order(&data, &home).is_empty());
    let data = save_room_order(
        data,
        &SaveRoomOrderRequest { connection: home.clone(), room_ids: vec!["b".to_string(), "a".to_string()] },
    );
    let data = save_room_order(
        data,
        &SaveRoomOrderRequest { connection: other.clone(), room_ids: vec!["z".to_string()] },
    );
    assert_eq!(load_room_order(&data, &same), vec!["b".to_string(), "a".to_string()]);
    let data = clear_room_order(data, &same);
    assert!(load_room_order(&data, &home).is_empty());
    assert_eq!(load_room_order(&data, &other), vec!["z".to_string()]);
}

#[test]
fn saving_one_setting_keeps_the_others() {
    let config = AppConfigFile::default();
    assert_eq!(load_bridge_connection(&config), None);
    let config = save_bridge_connection(config, &connection("1.1.1.1", "u"));
    let preference = ThemePreference { palette: ThemePalette::Dayfox, mode: ThemeMode::Light };
    let config = save_theme_preference(config, &preference);
    assert_eq!(load_bridge_connection(&config), Some(connection("1.1.1.1", "u")));
    assert_eq!(load_theme_preference(&config), preference);
    let config = clear_bridge_connection(config);
    assert_eq!(load_bridge_connection(&config), None);
    assert_eq!(load_theme_preference(&config), preference);
}

#[test]
fn paths_are_joined_like_path_buf() {
    assert_eq!(path_join("/home/me", ".config"), "/home/me/.config");
    assert_eq!(path_join("/home/me/", "x"), "/home/me/x");
    assert_eq!(path_join("", "x"), "x");
    assert_eq!(path_join("/a", "/etc"), "/etc");
}

#[test]
fn xdg_directories_prefer_the_variable_then_home() {
    assert_eq!(config_dir(Some("/xdg"), Some("/home/me")), Ok("/xdg/seasons".to_string()));
    assert_eq!(config_dir(Some(""), Some("/home/me")), Ok("/home/me/.config/seasons".to_string()));
    assert_eq!(data_dir(None, Some("/home/me")), Ok("/home/me/.local/share/seasons".to_string()));
    assert_eq!(
        data_dir(None, Some("")),
        Err("XDG_DATA_HOME is not set and HOME is unavailable".to_string())
    );
    assert_eq!(
        config_dir(None, None),
        Err("XDG_CONFIG_HOME is not set and HOME is unavailable".to_string())
    );
    assert_eq!(config_file_path(Some("/xdg"), None), Ok("/xdg/seasons/config.json".to_string()));
    assert_eq!(data_file_path(None, Some("/h")), Ok("/h/.local/share/seasons/state.json".to_string()));
    assert_eq!(
        resolve_xdg_dir("KEY", None, Some("/h"), &["a", "b"]),
        Ok("/h/a/b".to_string())
    );
}

#[test]
fn light_accent_source_follows_the_light() {
    let lamp = light("1", "Lamp", true, 77);
    assert_eq!(
        light_accent_source(&lamp),
        Some(AccentSource { brightness: 77, xy_bits: Some(XyBits { x: 1, y: 2 }), hue: 100, saturation: 10 })
    );
    let mut bare = light("2", "Bare", true, 5);
    bare.xy_bits = None;
    bare.hue = None;
    bare.saturation = None;
    assert_eq!(
        light_accent_source(&bare),
        Some(AccentSource { brightness: 5, xy_bits: None, hue: 8000, saturation: 40 })
    );
    assert_eq!(light_accent_source(&light("3", "Dark", true, 0)), None);
    let mut unknown = light("4", "Unknown", true, 9);
    unknown.brightness = None;
    assert_eq!(light_accent_source(&unknown), None);
}

#[test]
fn room_accent_prefers_lights_that_are_on() {
    let lights = vec![light("1", "A", false, 10), light("2", "B", true, 20), light("3", "C", true, 30)];
    let pool = accent_lights(&lights);
    assert_eq!(pool.iter().map(|l| l.id.as_str()).collect::<Vec<_>>(), vec!["2", "3"]);
    let dark = vec![light("1", "A", false, 10), light("2", "B", false, 20)];
    assert_eq!(accent_lights(&dark), dark);
    assert!(accent_lights(&vec![]).is_empty());
    assert_eq!(room_accent_css(&[(10, 20, 30), (20, 41, 0)]), Some("rgb(15 30 15)".to_string()));
    assert_eq!(room_accent_css(&[]), None);
}

#[test]
fn room_switch_turns_on_only_when_every_light_is_off() {
    let all_off = vec![light("1", "A", false, 10), light("2", "B", false, 20)];
    let toggle = room_toggle_state(&all_off);
    assert_eq!(toggle, LightStateUpdate { on: Some(true), brightness: None, saturation: None, hue: None, transition_time: Some(3) });
    let one_on = vec![light("1", "A", false, 10), light("2", "B", true, 20)];
    assert_eq!(room_toggle_state(&one_on).on, Some(false));
    let mut unknown = light("3", "C", false, 5);
    unknown.is_on = None;
    assert_eq!(room_toggle_state(&vec![unknown]).on, Some(true));
    assert_eq!(room_toggle_state(&vec![]).on, Some(true));
}

#[test]
fn brightness_control_has_a_floor_of_one() {
    assert_eq!(
        brightness_state(0),
        LightStateUpdate { on: Some(true), brightness: Some(1), saturation: None, hue: None, transition_time: Some(4) }
    );
    assert_eq!(brightness_state(200).brightness, Some(200));
}

#[test]
fn room_update_applies_states_only_when_every_request_succeeded() {
    let lights = vec![light("1", "A", false, 10), light("2", "B", false, 20)];
    let bridge = connection("10.0.0.2", "user");
    let requests = room_requests(&bridge, &lights, brightness_state(90));
    assert_eq!(requests.len(), 2);
    assert_eq!(requests[1].light_id, "2");
    assert_eq!(requests[1].bridge_ip, "10.0.0.2");
    assert_eq!(requests[1].username, "user");
    assert_eq!(requests[1].state, brightness_state(90));
    let (updated, notice) = finish_room_update(lights.clone(), &requests, None, "Room updated");
    assert_eq!(updated[0].brightness, Some(90));
    assert_eq!(updated[1].is_on, Some(true));
    assert_eq!(notice.tone, NoticeTone::Success);
    assert_eq!(notice.title, "Room updated");
    assert_eq!(notice.message, "The latest room change was accepted by the bridge.");
    let (kept, failed) = finish_room_update(lights.clone(), &requests, Some("bridge down".to_string()), "Room updated");
    assert_eq!(kept, lights);
    assert_eq!(failed.tone, NoticeTone::Error);
    assert_eq!(failed.title, "Room update failed");
    assert_eq!(failed.message, "bridge down");
}

#[test]
fn device_lists_are_stably_sorted_by_name() {
    let lights = lights_by_name(vec![light("1", "Desk", true, 1), light("2", "Couch", true, 1), light("3", "Desk", true, 1)]);
    assert_eq!(lights.iter().map(|l| l.id.as_str()).collect::<Vec<_>>(), vec!["2", "1", "3"]);
    let sensor = |id: &str, name: &str| Sensor {
        id: id.to_string(),
        name: name.to_string(),
        sensor_type: None,
        model_id: None,
        reachable: None,
        battery: None,
        last_updated: None,
        summary: None,
    };
    let sensors = sensors_by_name(vec![sensor("1", "b"), sensor("2", "a")]);
    assert_eq!(sensors[0].id, "2");
    let automation = |id: &str, name: &str| Automation {
        id: id.to_string(),
        name: name.to_string(),
        enabled: None,
        automation_type: None,
        script_id: None,
    };
    let automations = automations_by_name(vec![automation("1", "Wake"), automation("2", "Away"), automation("3", "Wake")]);
    assert_eq!(automations.iter().map(|a| a.id.as_str()).collect::<Vec<_>>(), vec!["2", "1", "3"]);
}
