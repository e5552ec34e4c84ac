use seasons::hue::areas::{default_inactive_status, is_excluded_member_service_type, sorted_unique};
use seasons::hue::audio_session::{
    needs_application_id, not_active_error, output_target_from, restore_result, restore_snapshot_of, restore_state_from_light,
    snapshot_needs_lights, sort_output_targets, stop_session_result, LightRestoreState,
};
use seasons::hue::client::{
    activate_scene_request, collection_endpoint, create_scene_request, create_user_request, created_scene,
    groups_from_response, light_state_request, lights_from_response, scene_endpoint, scenes_from_response,
    sort_scenes, with_preview, CreateScenePlan, ScenePreview,
};
use seasons::hue::color::{average_rgb, parse_color_channels, rgb_to_css, scene_lightstate_color_source, SceneColorSource};
use seasons::hue::config::HueBridgeConfig;
use seasons::hue::entertainment::{
    decode_client_key, empty_rgb_frame, EntertainmentChannelColor, EntertainmentFrameCounter,
};
use seasons::hue::error::HueError;
use seasons::hue::models::{
    BridgeConnection, EntertainmentArea, EntertainmentChannel, EntertainmentPosition, GroupKind, Light,
    LightStateUpdate, RawClipV2ResourceServiceIdentifier, RawEntertainmentChannelMember, RawHueGroup,
    RawHueLight, RawHueLightState, RawHueScene, RawHueSceneLightState, Scene,
};
use seasons::hue::order::name_then_id_precedes;
use seasons::hue::presets::light_offset;
use seasons::hue::sensors::{reading_summary, sensor_reading, SensorReading};
use seasons::json::{JsonMember, JsonNumber, JsonValue};

fn config(user: Option<&str>) -> HueBridgeConfig {
    HueBridgeConfig::new(" 10.0.0.2 ".to_string(), user.map(str::to_string)).unwrap()
}

fn raw_light(name: &str) -> RawHueLight {
    RawHueLight {
        name: name.to_string(),
        state: RawHueLightState { on: Some(true), bri: Some(1), sat: None, hue: None, xy_bits: None, reachable: None },
        light_type: None,
        modelid: None,
    }
}

fn raw_scene(name: &str, recycle: bool) -> RawHueScene {
    RawHueScene { name: name.to_string(), group: None, lights: vec![], scene_type: None, recycle }
}

fn raw_group(name: &str, kind: &str) -> RawHueGroup {
    RawHueGroup { name: name.to_string(), lights: vec![], group_type: kind.to_string() }
}

fn bare_scene(id: &str, name: &str) -> Scene {
    Scene {
        id: id.to_string(),
        name: name.to_string(),
        group_id: None,
        light_count: 0,
        scene_type: None,
        preview_color_soft: None,
        preview_color_main: None,
        preview_color_deep: None,
    }
}

fn area(light_ids: &[&str], channels: &[u8]) -> EntertainmentArea {
    EntertainmentArea {
        id: "area".to_string(),
        name: "Area".to_string(),
        configuration_type: None,
        status: "inactive".to_string(),
        channels: channels
            .iter()
            .map(|id| EntertainmentChannel {
                channel_id: *id,
                position: EntertainmentPosition { x_bits: 0, y_bits: 0, z_bits: 0 },
            })
            .collect(),
        light_ids: light_ids.iter().map(|s| s.to_string()).collect(),
    }
}

fn lamp(id: &str, on: Option<bool>) -> Light {
    Light {
        id: id.to_string(),
        name: id.to_string(),
        is_on: on,
        brightness: Some(90),
        saturation: Some(80),
        hue: Some(700),
        xy_bits: None,
        reachable: None,
        light_type: None,
        model_id: None,
    }
}

#[test]
fn bridge_config_trims_and_requires_an_address() {
    assert_eq!(
        HueBridgeConfig::new("  ".to_string(), None),
        Err(HueError::InvalidConfig("bridge IP is required".to_string()))
    );
    let anonymous = config(Some("   "));
    assert_eq!(anonymous.api_base_url(), "https://10.0.0.2/api");
    assert_eq!(anonymous.clip_v2_base_url(), "https://10.0.0.2/clip/v2");
    assert_eq!(anonymous.auth_v1_url(), "https://10.0.0.2/auth/v1");
    assert_eq!(anonymous.authenticated_api_base_url(), Err(HueError::MissingUsername));
    assert_eq!(anonymous.application_key(), Err(HueError::MissingUsername));
    let user = HueBridgeConfig::authenticated("10.0.0.2".to_string(), " me ".to_string()).unwrap();
    assert_eq!(user.authenticated_api_base_url(), Ok("https://10.0.0.2/api/me".to_string()));
    assert_eq!(user.application_key(), Ok("me"));
    assert_eq!(
        HueBridgeConfig::authenticated("10.0.0.2".to_string(), " ".to_string()),
        Err(HueError::InvalidConfig("username is required".to_string()))
    );
}

#[test]
fn error_messages() {
    assert_eq!(
        HueError::InvalidConfig("x".to_string()).message(),
        "invalid Hue bridge configuration: x"
    );
    assert_eq!(HueError::MissingUsername.message(), "Hue bridge username is required for this operation");
    assert_eq!(
        HueError::Api { code: 101, address: "".to_string(), description: "link button not pressed".to_string() }
            .message(),
        "Hue bridge API error 101 at : link button not pressed"
    );
    assert_eq!(
        not_active_error(),
        HueError::EntertainmentStream("audio sync is not currently active".to_string())
    );
}

#[test]
fn endpoints_need_a_username() {
    let user = config(Some("me"));
    assert_eq!(collection_endpoint(&user, "lights"), Ok("https://10.0.0.2/api/me/lights".to_string()));
    assert_eq!(scene_endpoint(&user, "s1"), Ok("https://10.0.0.2/api/me/scenes/s1".to_string()));
    assert_eq!(collection_endpoint(&config(None), "lights"), Err(HueError::MissingUsername));
}

#[test]
fn create_user_needs_a_device_type() {
    assert_eq!(
        create_user_request(&config(None), " app#desk "),
        Ok(("https://10.0.0.2/api".to_string(), "app#desk".to_string()))
    );
    assert_eq!(
        create_user_request(&config(None), "  "),
        Err(HueError::InvalidConfig("device type is required".to_string()))
    );
}

#[test]
fn light_state_requests_are_validated() {
    let state = LightStateUpdate { on: Some(true), brightness: None, saturation: None, hue: None, transition_time: None };
    let (url, payload) = light_state_request(&config(Some("me")), " 7 ", &state).unwrap();
    assert_eq!(url, "https://10.0.0.2/api/me/lights/7/state");
    assert_eq!(payload, state.to_payload());
    assert_eq!(
        light_state_request(&config(Some("me")), " ", &state),
        Err(HueError::InvalidConfig("light ID is required".to_string()))
    );
    let empty = LightStateUpdate { on: None, brightness: None, saturation: None, hue: None, transition_time: None };
    assert_eq!(
        light_state_request(&config(Some("me")), "7", &empty),
        Err(HueError::InvalidConfig("at least one light state field is required".to_string()))
    );
    assert_eq!(light_state_request(&config(None), "7", &state), Err(HueError::MissingUsername));
}

#[test]
fn scene_activation_targets_a_group() {
    assert_eq!(
        activate_scene_request(&config(Some("me")), " s9 ", None),
        Ok(("https://10.0.0.2/api/me/groups/0/action".to_string(), "s9".to_string()))
    );
    assert_eq!(
        activate_scene_request(&config(Some("me")), "s9", Some("4")),
        Ok(("https://10.0.0.2/api/me/groups/4/action".to_string(), "s9".to_string()))
    );
    assert_eq!(
        activate_scene_request(&config(Some("me")), "", Some("4")),
        Err(HueError::InvalidConfig("scene ID is required".to_string()))
    );
}

#[test]
fn scene_creation_is_validated_and_recorded() {
    let ids = vec!["1".to_string()];
    assert_eq!(
        create_scene_request(&config(Some("me")), " ", "Evening", &ids),
        Err(HueError::InvalidConfig("group ID is required".to_string()))
    );
    assert_eq!(
        create_scene_request(&config(Some("me")), "2", " ", &ids),
        Err(HueError::InvalidConfig("scene name is required".to_string()))
    );
    assert_eq!(
        create_scene_request(&config(Some("me")), "2", "Evening", &[]),
        Err(HueError::InvalidConfig("at least one light is required to create a scene".to_string()))
    );
    let plan = create_scene_request(&config(Some("me")), " 2 ", " Evening ", &ids).unwrap();
    assert_eq!(
        plan,
        CreateScenePlan {
            endpoint: "https://10.0.0.2/api/me/scenes".to_string(),
            group_id: "2".to_string(),
            scene_name: "Evening".to_string(),
        }
    );
    let preview = ScenePreview { soft: "a".to_string(), main: "b".to_string(), deep: "c".to_string() };
    let scene = created_scene(plan, "abc".to_string(), 3, Some(preview.clone()));
    assert_eq!(scene.id, "abc");
    assert_eq!(scene.name, "Evening");
    assert_eq!(scene.group_id, Some("2".to_string()));
    assert_eq!(scene.light_count, 3);
    assert_eq!(scene.scene_type, Some("GroupScene".to_string()));
    assert_eq!(scene.preview_color_main, Some("b".to_string()));
    assert_eq!(with_preview(bare_scene("x", "y"), None), bare_scene("x", "y"));
    assert_eq!(with_preview(bare_scene("x", "y"), Some(preview)).preview_color_deep, Some("c".to_string()));
}

#[test]
fn listed_lights_are_in_numeric_id_order() {
    let lights = lights_from_response(vec![
        ("10".to_string(), raw_light("ten")),
        ("2".to_string(), raw_light("two")),
        ("b".to_string(), raw_light("bee")),
        ("1".to_string(), raw_light("one")),
    ]);
    assert_eq!(lights.iter().map(|l| l.id.as_str()).collect::<Vec<_>>(), vec!["1", "2", "10", "b"]);
}

#[test]
fn recycled_scenes_are_dropped_and_scenes_sorted_by_name() {
    let scenes = scenes_from_response(vec![
        ("s2".to_string(), raw_scene("Relax", false)),
        ("s1".to_string(), raw_scene("Temp", true)),
        ("s3".to_string(), raw_scene("Bright", false)),
    ]);
    assert_eq!(scenes.iter().map(|s| s.id.as_str()).collect::<Vec<_>>(), vec!["s2", "s3"]);
    let sorted = sort_scenes(vec![bare_scene("b", "Same"), bare_scene("a", "Same"), bare_scene("c", "Alpha")]);
    assert_eq!(sorted.iter().map(|s| s.id.as_str()).collect::<Vec<_>>(), vec!["c", "a", "b"]);
    assert!(name_then_id_precedes("A", "9", "B", "1"));
    assert!(name_then_id_precedes("A", "1", "A", "2"));
    assert!(!name_then_id_precedes("A", "2", "A", "2"));
}

#[test]
fn only_rooms_and_zones_are_listed_as_groups() {
    let groups = groups_from_response(vec![
        ("3".to_string(), raw_group("Kitchen", "Room")),
        ("1".to_string(), raw_group("All", "LightGroup")),
        ("2".to_string(), raw_group("Downstairs", "Zone")),
    ]);
    assert_eq!(groups.iter().map(|g| (g.id.as_str(), g.kind)).collect::<Vec<_>>(), vec![
        ("2", GroupKind::Zone),
        ("3", GroupKind::Room),
    ]);
}

#[test]
fn area_members_and_ids() {
    assert_eq!(default_inactive_status(), "inactive");
    assert!(is_excluded_member_service_type(Some("Device")));
    assert!(!is_excluded_member_service_type(Some("light")));
    assert!(!is_excluded_member_service_type(None));
    let member = RawEntertainmentChannelMember {
        service: Some(RawClipV2ResourceServiceIdentifier { rid: "  ".to_string(), rtype: Some("light".to_string()) }),
        rid: Some(" 42 ".to_string()),
        rtype: None,
    };
    assert_eq!(member.candidate_service_rid(), Some("42".to_string()));
    let device = RawEntertainmentChannelMember {
        service: Some(RawClipV2ResourceServiceIdentifier { rid: "d".to_string(), rtype: Some("device".to_string()) }),
        rid: None,
        rtype: None,
    };
    assert_eq!(device.candidate_service_rid(), None);
    assert_eq!(
        sorted_unique(vec!["b".to_string(), "a".to_string(), "b".to_string(), "B".to_string()]),
        vec!["B".to_string(), "a".to_string(), "b".to_string()]
    );
}

#[test]
fn frame_counter_advances_and_wraps() {
    let colors = [EntertainmentChannelColor { channel_id: 1, red: 0x0102, green: 0, blue: 0xffff }];
    let mut counter = EntertainmentFrameCounter::new("area".to_string());
    let first = counter.next_packet(&colors).unwrap();
    assert_eq!(first[11], 0);
    assert_eq!(counter.sequence_id, 1);
    counter.sequence_id = 255;
    let last = counter.next_packet(&colors).unwrap();
    assert_eq!(last[11], 255);
    assert_eq!(counter.sequence_id, 0);
    let mut blank = EntertainmentFrameCounter::new("  ".to_string());
    assert!(blank.next_packet(&colors).is_err());
    assert_eq!(blank.sequence_id, 0);
}

#[test]
fn dark_frame_covers_every_channel() {
    let frame = empty_rgb_frame(&area(&[], &[3, 1]));
    assert_eq!(frame, vec![
        EntertainmentChannelColor { channel_id: 3, red: 0, green: 0, blue: 0 },
        EntertainmentChannelColor { channel_id: 1, red: 0, green: 0, blue: 0 },
    ]);
}

#[test]
fn client_keys_decode_from_hex() {
    assert_eq!(decode_client_key("00ff10Ab"), Ok(vec![0x00, 0xff, 0x10, 0xab]));
    assert_eq!(decode_client_key(""), Err(HueError::MissingClientKey));
    assert_eq!(
        decode_client_key("abc"),
        Err(HueError::EntertainmentStream("invalid Hue client key: Odd number of digits".to_string()))
    );
    assert_eq!(
        decode_client_key("0z"),
        Err(HueError::EntertainmentStream("invalid Hue client key: Invalid character 'z' at position 1".to_string()))
    );
}

#[test]
fn colors_average_and_render() {
    assert_eq!(average_rgb(&[(10, 20, 30), (20, 40, 61)]), (15, 30, 45));
    assert_eq!(average_rgb(&[]), (0, 0, 0));
    assert_eq!(rgb_to_css((255, 0, 7)), "rgb(255 0 7)");
    let off = RawHueSceneLightState { on: Some(false), bri: Some(10), xy_bits: None, sat: None, hue: None };
    assert_eq!(scene_lightstate_color_source(&off), None);
    let dark = RawHueSceneLightState { on: None, bri: Some(0), xy_bits: None, sat: None, hue: None };
    assert_eq!(scene_lightstate_color_source(&dark), None);
    let defaults = RawHueSceneLightState { on: None, bri: Some(9), xy_bits: None, sat: None, hue: None };
    assert_eq!(
        scene_lightstate_color_source(&defaults),
        Some(SceneColorSource::HueSat { hue: 8400, saturation: 56, brightness: 9 })
    );
    let xy = RawHueSceneLightState { on: Some(true), bri: Some(9), xy_bits: Some([1, 2]), sat: Some(3), hue: None };
    assert_eq!(
        scene_lightstate_color_source(&xy),
        Some(SceneColorSource::Xy { x_bits: 1, y_bits: 2, brightness: 9 })
    );
}

#[test]
fn light_offsets_spread_around_zero() {
    assert_eq!(light_offset(0, 1), 0);
    assert_eq!((0..3).map(|i| light_offset(i, 3)).collect::<Vec<_>>(), vec![-20, 0, 20]);
    assert_eq!((0..4).map(|i| light_offset(i, 4)).collect::<Vec<_>>(), vec![-30, -10, 10, 30]);
}

fn state(members: Vec<(&str, JsonValue)>) -> JsonValue {
    JsonValue::Object(members.into_iter().map(|(k, v)| JsonMember { key: k.to_string(), value: v }).collect())
}

#[test]
fn sensor_readings_follow_their_precedence() {
    let both = state(vec![
        ("temperature", JsonValue::Number(JsonNumber::Unsigned(2150))),
        ("presence", JsonValue::Bool(false)),
    ]);
    assert_eq!(sensor_reading(&both), Some(SensorReading::Presence(false)));
    let cold = state(vec![("temperature", JsonValue::Number(JsonNumber::Negative(-300)))]);
    assert_eq!(sensor_reading(&cold), Some(SensorReading::Temperature(-300)));
    let wrong_type = state(vec![("presence", JsonValue::String("yes".to_string())), ("dark", JsonValue::Bool(true))]);
    assert_eq!(sensor_reading(&wrong_type), Some(SensorReading::Dark(true)));
    assert_eq!(sensor_reading(&state(vec![("buttonevent", JsonValue::Number(JsonNumber::Unsigned(1002)))])), Some(SensorReading::ButtonEvent(1002)));
    assert_eq!(sensor_reading(&JsonValue::Null), None);
    assert_eq!(reading_summary(SensorReading::Presence(true), None), Some("Motion detected".to_string()));
    assert_eq!(reading_summary(SensorReading::Presence(false), None), Some("No motion".to_string()));
    assert_eq!(reading_summary(SensorReading::Daylight(false), None), Some("No daylight".to_string()));
    assert_eq!(reading_summary(SensorReading::Dark(false), None), Some("Bright".to_string()));
    assert_eq!(reading_summary(SensorReading::LightLevel(12000), None), Some("Light level 12000".to_string()));
    assert_eq!(reading_summary(SensorReading::ButtonEvent(-5), None), Some("Button event -5".to_string()));
    assert_eq!(
        reading_summary(SensorReading::Temperature(2150), Some("21.5°C".to_string())),
        Some("21.5°C".to_string())
    );
}

#[test]
fn audio_session_restores_area_lights() {
    let on = restore_state_from_light(&lamp("1", Some(true)));
    assert_eq!(on, LightStateUpdate { on: Some(true), brightness: Some(90), saturation: Some(80), hue: Some(700), transition_time: Some(4) });
    let off = restore_state_from_light(&lamp("1", None));
    assert_eq!(off, LightStateUpdate { on: Some(false), brightness: None, saturation: None, hue: None, transition_time: Some(4) });
    assert!(!snapshot_needs_lights(&area(&[], &[1])));
    assert!(snapshot_needs_lights(&area(&["2"], &[])));
    let snapshot = restore_snapshot_of(&vec![lamp("1", Some(true)), lamp("2", Some(false)), lamp("3", Some(true))], &area(&["3", "2"], &[]));
    assert_eq!(snapshot, vec![
        LightRestoreState { light_id: "2".to_string(), state: off.clone() },
        LightRestoreState { light_id: "3".to_string(), state: on.clone() },
    ]);
}

#[test]
fn session_errors_are_combined() {
    let first = HueError::Http("timeout".to_string());
    let second = HueError::Io("disk".to_string());
    assert_eq!(restore_result(vec![Ok(()), Err(first.clone()), Err(second.clone())]), Err(first.clone()));
    assert_eq!(restore_result(vec![Ok(())]), Ok(()));
    assert_eq!(stop_session_result(Ok(()), Ok(())), Ok(()));
    assert_eq!(stop_session_result(Err(first.clone()), Ok(())), Err(first.clone()));
    assert_eq!(stop_session_result(Ok(()), Err(second.clone())), Err(second.clone()));
    assert_eq!(
        stop_session_result(Err(first), Err(second)),
        Err(HueError::EntertainmentStream(
            "stopping stream failed: failed to communicate with the Hue bridge: timeout; restoring previous light states also failed: failed to use the local filesystem: disk".to_string()
        ))
    );
}

#[test]
fn application_id_lookup_when_missing_or_blank() {
    let mut connection = BridgeConnection {
        bridge_ip: "1".to_string(),
        username: "u".to_string(),
        client_key: None,
        application_id: None,
    };
    assert!(needs_application_id(&connection));
    connection.application_id = Some(String::new());
    assert!(needs_application_id(&connection));
    connection.application_id = Some("app".to_string());
    assert!(!needs_application_id(&connection));
}

fn node(media_class: Option<&str>, serial: Option<&str>, name: Option<&str>, description: Option<&str>, nick: Option<&str>) -> seasons::hue::audio_session::AudioNodeProps {
    seasons::hue::audio_session::AudioNodeProps {
        media_class: media_class.map(str::to_string),
        object_serial: serial.map(str::to_string),
        node_name: name.map(str::to_string),
        node_description: description.map(str::to_string),
        node_nick: nick.map(str::to_string),
    }
}

fn target(id: &str, description: &str) -> seasons::hue::models::PipeWireOutputTarget {
    seasons::hue::models::PipeWireOutputTarget {
        target_object: id.to_string(),
        name: id.to_string(),
        description: description.to_string(),
        media_class: "Audio/Sink".to_string(),
    }
}

#[test]
fn only_named_sinks_are_output_targets() {
    let full = output_target_from(node(Some("Audio/Sink"), Some("41"), Some("alsa_output"), Some("Speakers"), Some("spk"))).unwrap();
    assert_eq!(full.target_object, "41");
    assert_eq!(full.name, "alsa_output");
    assert_eq!(full.description, "Speakers");
    assert_eq!(full.media_class, "Audio/Sink");
    let by_name = output_target_from(node(Some("Audio/Sink"), None, Some("hdmi"), None, Some("TV"))).unwrap();
    assert_eq!(by_name.target_object, "hdmi");
    assert_eq!(by_name.description, "TV");
    let bare = output_target_from(node(Some("Audio/Sink"), Some("7"), None, None, None)).unwrap();
    assert_eq!(bare.description, "Audio output");
    assert_eq!(bare.name, "Audio output");
    assert_eq!(output_target_from(node(Some("Audio/Source"), Some("1"), Some("mic"), None, None)), None);
    assert_eq!(output_target_from(node(None, Some("1"), Some("x"), None, None)), None);
    // An empty serial is not replaced by the node name.
    assert_eq!(output_target_from(node(Some("Audio/Sink"), Some(""), Some("x"), None, None)), None);
    assert_eq!(output_target_from(node(Some("Audio/Sink"), None, None, Some("d"), None)), None);
}

#[test]
fn output_targets_are_sorted_and_listed_once() {
    let sorted = sort_output_targets(vec![target("3", "Speakers"), target("1", "Headphones"), target("2", "Speakers"), target("1", "Headphones")]);
    assert_eq!(
        sorted.iter().map(|t| (t.description.as_str(), t.target_object.as_str())).collect::<Vec<_>>(),
        vec![("Headphones", "1"), ("Speakers", "2"), ("Speakers", "3")]
    );
    assert!(sort_output_targets(vec![]).is_empty());
}

#[test]
fn colour_text_is_read_in_both_forms() {
    assert_eq!(parse_color_channels(Some("#ff0000")), Some((255, 0, 0)));
    assert_eq!(parse_color_channels(Some("  #8040FF \n")), Some((128, 64, 255)));
    assert_eq!(parse_color_channels(Some("#+a0b0c")), Some((10, 11, 12)));
    assert_eq!(parse_color_channels(Some("#ff00")), None);
    assert_eq!(parse_color_channels(Some("#ff00zz")), None);
    assert_eq!(parse_color_channels(Some("#-f0000")), None);
    assert_eq!(parse_color_channels(Some("#é1234")), None);
    assert_eq!(parse_color_channels(Some("rgb(12, 34, 56)")), Some((12, 34, 56)));
    assert_eq!(parse_color_channels(Some("rgb( 1 ,,2\t+3 )")), Some((1, 2, 3)));
    assert_eq!(parse_color_channels(Some("rgb(1, 2)")), None);
    assert_eq!(parse_color_channels(Some("rgb(1, 2, 3, 4)")), None);
    assert_eq!(parse_color_channels(Some("rgb(1, 2, 256)")), None);
    assert_eq!(parse_color_channels(Some("rgb(1, 2, 3")), None);
    assert_eq!(parse_color_channels(Some("RGB(1, 2, 3)")), None);
    assert_eq!(parse_color_channels(Some("red")), None);
    assert_eq!(parse_color_channels(None), None);
}

#[test]
fn repeated_output_target_keeps_its_first_entry() {
    let mut first = target("5", "Speakers");
    first.name = "first".to_string();
    let mut second = target("5", "Speakers");
    second.name = "second".to_string();
    let sorted = sort_output_targets(vec![first, target("2", "Amp"), second]);
    assert_eq!(sorted.len(), 2);
    assert_eq!(sorted[0].target_object, "2");
    assert_eq!(sorted[1].name, "first");
}
