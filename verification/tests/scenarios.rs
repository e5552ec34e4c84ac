use seasons::app_state::{room_order_key, AppConfigFile, AppDataFile, AudioSyncPreferences};
use seasons::hue::areas::entertainment_area_from;
use seasons::hue::client::{
    ensure_success_only, extract_api_error, extract_created_scene_id, extract_first_success,
};
use seasons::hue::config::HueBridgeConfig;
use seasons::hue::entertainment::{encode_rgb_packet, EntertainmentChannelColor};
use seasons::hue::error::HueApiErrorBody;
use seasons::hue::models::{
    Automation, AudioSyncColorPalette, AudioSyncSpeedMode, BridgeConnection,
    CreateUserSuccessPayload, EntertainmentPosition, Group, GroupKind, HueApiResponse,
    HueLightStatePayload, Light, RawAutomation, RawClipV2ResourceServiceIdentifier,
    RawEntertainmentArea, RawEntertainmentAreaStatus, RawEntertainmentChannel,
    RawEntertainmentChannelMember, RawHueGroup, RawHueLight, RawHueLightState, RawHueScene,
    LightStateUpdate, RawHueSensor, Scene,
};
use seasons::hue::order::compare_light_ids;
use seasons::hue::presets::{curated_room_scenes, preset_light_state};
use seasons::hue::sensors::sensor_from;
use seasons::json::{JsonMember, JsonNumber, JsonValue};
use seasons::ollama::decode::parse_planned_response_value;
use seasons::ollama::models::{OllamaSettings, PlannedAction, PlannedResponse};
use seasons::ollama::retry::should_force_execution_retry;
use seasons::rooms::{apply_room_order, reorder_room_ids, RoomSection};
use seasons::theme::{ThemeMode, ThemePalette, ThemePreference};
use std::collections::HashMap;

fn member(key: &str, value: JsonValue) -> JsonMember {
    JsonMember { key: key.to_string(), value }
}

fn text(value: &str) -> JsonValue {
    JsonValue::String(value.to_string())
}

fn position(x: f32, y: f32, z: f32) -> EntertainmentPosition {
    EntertainmentPosition { x_bits: x.to_bits(), y_bits: y.to_bits(), z_bits: z.to_bits() }
}

#[test]
fn room_order_key_uses_bridge_and_username() {
    let connection = BridgeConnection {
        bridge_ip: "172.16.0.10".to_string(),
        username: "user-token".to_string(),
        client_key: None,
        application_id: None,
    };

    assert_eq!(room_order_key(&connection), "172.16.0.10::user-token");
}

#[test]
fn state_files_default_to_empty() {
    let config = AppConfigFile::default();
    let data = AppDataFile::default();

    assert!(config.last_connection.is_none());
    assert_eq!(
        config.theme_preference,
        ThemePreference {
            palette: ThemePalette::RosePine,
            mode: ThemeMode::System,
        }
    );
    assert_eq!(
        config.audio_sync,
        AudioSyncPreferences {
            selected_entertainment_area_id: None,
            selected_pipewire_target_object: None,
            selected_sync_speed_mode: AudioSyncSpeedMode::Medium,
            selected_sync_color_palette: AudioSyncColorPalette::CurrentRoom,
        }
    );
    assert_eq!(config.ollama, OllamaSettings::default());
    assert!(data.is_empty());
}

#[test]
fn prefers_numeric_light_ordering() {
    assert!(compare_light_ids("2", "10").is_lt());
    assert!(compare_light_ids("alpha", "beta").is_lt());
}

#[test]
fn extracts_first_success_value() {
    let responses = vec![HueApiResponse::Success {
        success: CreateUserSuccessPayload {
            username: "token-123".to_string(),
            clientkey: None,
        },
    }];

    let success = extract_first_success(responses).unwrap();
    assert_eq!(success.username, "token-123");
}

#[test]
fn accepts_successful_state_updates() {
    let responses = vec![HueApiResponse::Success {
        success: HashMap::<String, serde_json::Value>::new(),
    }];

    assert!(ensure_success_only(responses).is_ok());
}

#[test]
fn turns_api_error_payloads_into_hue_errors() {
    let decoded: Option<Vec<HueApiResponse<()>>> = Some(vec![HueApiResponse::Error {
        error: HueApiErrorBody {
            error_type: 1,
            address: "/lights".to_string(),
            description: "unauthorized user".to_string(),
        },
    }]);

    let error = extract_api_error(decoded);
    assert_eq!(
        error.message(),
        "Hue bridge API error 1 at /lights: unauthorized user"
    );
}

#[test]
fn extracts_created_scene_id() {
    let responses = vec![HueApiResponse::Success {
        success: vec![(
            "/scenes/desk-quiet-focus".to_string(),
            "desk-quiet-focus".to_string(),
        )],
    }];

    let scene_id = extract_created_scene_id(responses).unwrap();
    assert_eq!(scene_id, "desk-quiet-focus");
}

#[test]
fn trims_and_keeps_optional_username() {
    let config = HueBridgeConfig::new(
        " 192.168.1.2 ".to_string(),
        Some(" user-token ".to_string()),
    )
    .unwrap();

    assert_eq!(config.api_base_url(), "https://192.168.1.2/api");
    assert_eq!(
        config.authenticated_api_base_url().unwrap(),
        "https://192.168.1.2/api/user-token"
    );
}

#[test]
fn rejects_empty_bridge_ip() {
    let error = HueBridgeConfig::new("   ".to_string(), None).unwrap_err();

    assert_eq!(
        error.message(),
        "invalid Hue bridge configuration: bridge IP is required"
    );
}

#[test]
fn encodes_hue_stream_packet_header() {
    let packet = encode_rgb_packet(
        "1a8d99cc-967b-44f2-9202-43f976c0fa6b",
        7,
        &[EntertainmentChannelColor {
            channel_id: 0,
            red: u16::MAX,
            green: 0,
            blue: 0,
        }],
    )
    .unwrap();

    assert_eq!(&packet[..9], b"HueStream");
    assert_eq!(packet[9], 0x02);
    assert_eq!(packet[10], 0x00);
    assert_eq!(packet[11], 7);
}

#[test]
fn converts_raw_lights_to_public_models() {
    let raw = RawHueLight {
        name: "Kitchen".to_string(),
        state: RawHueLightState {
            on: Some(true),
            bri: Some(200),
            sat: Some(150),
            hue: Some(10000),
            xy_bits: None,
            reachable: Some(true),
        },
        light_type: Some("Extended color light".to_string()),
        modelid: Some("LCT015".to_string()),
    };

    let lights: Vec<Light> = vec![("1".to_string(), raw)].into_iter().map(Light::from).collect();

    assert_eq!(lights[0].id, "1");
    assert_eq!(lights[0].name, "Kitchen");
    assert_eq!(lights[0].brightness, Some(200));
    assert_eq!(
        lights[0].light_type.as_deref(),
        Some("Extended color light")
    );
}

#[test]
fn recognizes_empty_state_payload() {
    let payload = HueLightStatePayload {
        on: None,
        brightness: None,
        saturation: None,
        hue: None,
        transition_time: None,
    };

    assert!(payload.is_empty());
}

#[test]
fn converts_raw_scenes_to_public_models() {
    let raw = RawHueScene {
        name: "Evening".to_string(),
        group: Some("2".to_string()),
        lights: vec!["1".to_string(), "3".to_string(), "5".to_string()],
        scene_type: Some("GroupScene".to_string()),
        recycle: false,
    };

    let scenes: Vec<Scene> = vec![("abcd1234".to_string(), raw)]
        .into_iter()
        .map(Scene::from)
        .collect();

    assert_eq!(scenes[0].id, "abcd1234");
    assert_eq!(scenes[0].name, "Evening");
    assert_eq!(scenes[0].group_id.as_deref(), Some("2"));
    assert_eq!(scenes[0].light_count, 3);
}

#[test]
fn converts_raw_sensors_to_public_models() {
    let raw = RawHueSensor {
        name: "Hall motion".to_string(),
        sensor_type: Some("ZLLPresence".to_string()),
        modelid: Some("SML001".to_string()),
        state: JsonValue::Object(vec![
            member("presence", JsonValue::Bool(true)),
            member("lastupdated", text("2026-04-04T14:00:00")),
        ]),
        config: JsonValue::Object(vec![
            member("reachable", JsonValue::Bool(true)),
            member("battery", JsonValue::Number(JsonNumber::Unsigned(87))),
        ]),
    };

    let sensors = vec![sensor_from("12".to_string(), raw, None)];

    assert_eq!(sensors.len(), 1);
    assert_eq!(sensors[0].name, "Hall motion");
    assert_eq!(sensors[0].sensor_type.as_deref(), Some("ZLLPresence"));
    assert_eq!(sensors[0].battery, Some(87));
    assert_eq!(sensors[0].summary.as_deref(), Some("Motion detected"));
}

#[test]
fn filters_room_and_zone_groups() {
    let raw = vec![
        (
            "1".to_string(),
            RawHueGroup {
                name: "Living Room".to_string(),
                lights: vec!["1".to_string(), "2".to_string()],
                group_type: "Room".to_string(),
            },
        ),
        (
            "2".to_string(),
            RawHueGroup {
                name: "Downstairs".to_string(),
                lights: vec!["1".to_string(), "4".to_string()],
                group_type: "Zone".to_string(),
            },
        ),
        (
            "3".to_string(),
            RawHueGroup {
                name: "Unsupported".to_string(),
                lights: vec!["8".to_string()],
                group_type: "LightGroup".to_string(),
            },
        ),
    ];

    let groups: Vec<Group> = raw
        .into_iter()
        .filter_map(|entry| Group::try_from(entry).ok())
        .collect();

    assert_eq!(groups.len(), 2);
    assert_eq!(groups[0].kind, GroupKind::Room);
    assert_eq!(groups[1].kind, GroupKind::Zone);
}

#[test]
fn converts_raw_automations_to_public_models() {
    let raw = vec![
        RawAutomation {
            id: "automation-1".to_string(),
            automation_type: Some("behavior_instance".to_string()),
            metadata_name: "Morning lights".to_string(),
            enabled: Some(true),
            script_id: Some("script-1".to_string()),
        },
        RawAutomation {
            id: "automation-2".to_string(),
            automation_type: None,
            metadata_name: "Night routine".to_string(),
            enabled: None,
            script_id: None,
        },
    ];

    let automations: Vec<Automation> = raw.into_iter().map(Automation::from).collect();

    assert_eq!(automations.len(), 2);
    assert_eq!(automations[0].name, "Morning lights");
    assert_eq!(automations[0].enabled, Some(true));
    assert_eq!(
        automations[0].automation_type.as_deref(),
        Some("behavior_instance")
    );
    assert_eq!(automations[0].script_id.as_deref(), Some("script-1"));
    assert_eq!(automations[1].enabled, None);
}

fn service_member(rid: &str, rtype: &str) -> RawEntertainmentChannelMember {
    RawEntertainmentChannelMember {
        service: Some(RawClipV2ResourceServiceIdentifier {
            rid: rid.to_string(),
            rtype: Some(rtype.to_string()),
        }),
        rid: None,
        rtype: None,
    }
}

#[test]
fn converts_entertainment_area_members_to_light_ids() {
    let raw = RawEntertainmentArea {
        id: "area-1".to_string(),
        metadata_name: "Lounge".to_string(),
        configuration_type: Some("music".to_string()),
        status: RawEntertainmentAreaStatus::String("inactive".to_string()),
        channels: vec![
            RawEntertainmentChannel {
                channel_id: 1,
                position: position(0.0, 0.0, 0.0),
                members: vec![service_member("12", "light"), service_member("alpha", "device")],
            },
            RawEntertainmentChannel {
                channel_id: 2,
                position: position(1.0, 0.0, 0.0),
                members: vec![service_member("7", "light"), service_member("12", "light")],
            },
        ],
        light_services: Vec::new(),
        location_ids: Vec::new(),
    };

    let area = entertainment_area_from(raw);

    assert_eq!(area.id, "area-1");
    assert_eq!(area.channels.len(), 2);
    assert_eq!(area.light_ids, vec!["12".to_string(), "7".to_string()]);
}

#[test]
fn converts_entertainment_area_light_services_and_locations_to_light_ids() {
    let raw = RawEntertainmentArea {
        id: "area-2".to_string(),
        metadata_name: "Whole house".to_string(),
        configuration_type: None,
        status: RawEntertainmentAreaStatus::default(),
        channels: Vec::new(),
        light_services: vec![
            RawClipV2ResourceServiceIdentifier {
                rid: "rid-1".to_string(),
                rtype: Some("entertainment".to_string()),
            },
            RawClipV2ResourceServiceIdentifier {
                rid: "rid-2".to_string(),
                rtype: Some("light".to_string()),
            },
        ],
        location_ids: vec!["rid-3".to_string()],
    };

    let area = entertainment_area_from(raw);

    assert_eq!(area.id, "area-2");
    assert_eq!(
        area.light_ids,
        vec![
            "rid-1".to_string(),
            "rid-2".to_string(),
            "rid-3".to_string()
        ]
    );
}

#[test]
fn parses_single_action_object_in_actions_field() {
    let payload = JsonValue::Object(vec![
        member("assistantMessage", text("ok")),
        member(
            "actions",
            JsonValue::Object(vec![
                member("type", text("setGroupState")),
                member("groupId", text("81")),
                member("on", JsonValue::Bool(false)),
            ]),
        ),
    ]);

    let parsed = parse_planned_response_value(payload).expect("payload should parse");
    assert_eq!(parsed.actions.len(), 1);
    match &parsed.actions[0] {
        PlannedAction::SetGroupState { group_id, on, .. } => {
            assert_eq!(group_id, "81");
            assert_eq!(*on, Some(false));
        }
        _ => panic!("expected setGroupState action"),
    }
}

#[test]
fn parses_single_action_from_action_field() {
    let payload = JsonValue::Object(vec![
        member("assistantMessage", text("ok")),
        member(
            "action",
            JsonValue::Object(vec![
                member("type", text("setLightState")),
                member("lightId", text("5")),
                member("on", JsonValue::Bool(true)),
            ]),
        ),
    ]);

    let parsed = parse_planned_response_value(payload).expect("payload should parse");
    assert_eq!(parsed.actions.len(), 1);
    match &parsed.actions[0] {
        PlannedAction::SetLightState { light_id, on, .. } => {
            assert_eq!(light_id, "5");
            assert_eq!(*on, Some(true));
        }
        _ => panic!("expected setLightState action"),
    }
}

#[test]
fn force_retry_when_response_paraphrases_input() {
    let planned = PlannedResponse {
        assistant_message: "Turning off the light in the living room.".to_string(),
        actions: Vec::new(),
    };

    assert!(should_force_execution_retry(
        "Turning off the light in the living room.",
        &planned
    ));
}

#[test]
fn no_force_retry_when_response_contains_actual_info() {
    let planned = PlannedResponse {
        assistant_message: "There are 12 lights and 4 rooms available on this bridge."
            .to_string(),
        actions: Vec::new(),
    };

    assert!(!should_force_execution_retry("list lights", &planned));
}

#[test]
fn force_retry_for_placeholder_message() {
    let planned = PlannedResponse {
        assistant_message: "turnOnLightsResponse".to_string(),
        actions: Vec::new(),
    };

    assert!(should_force_execution_retry(
        "turn on the living room lights",
        &planned
    ));
}

#[test]
fn curated_scene_pack_has_expected_defaults() {
    let scenes = curated_room_scenes();
    assert_eq!(scenes.len(), 10);
    assert_eq!(scenes[0].name, "Quiet Focus");
    assert_eq!(scenes[3].name, "Signal Boost");
    assert_eq!(scenes[9].name, "Forest Hush");
}

#[test]
fn generated_states_stay_within_hue_ranges() {
    for preset in curated_room_scenes().iter() {
        for index in 0..4 {
            let state = preset_light_state(*preset, index, 4);
            assert!(state.on.unwrap_or(false));
            assert!((1..=254).contains(&state.brightness.unwrap_or_default()));
            assert!(state.saturation.unwrap_or_default() <= 254);
            assert!(state.hue.is_some());
        }
    }
}

#[test]
fn reorder_room_ids_moves_source_into_target_position_when_moving_up() {
    let current = vec![
        "desk".to_string(),
        "hallway".to_string(),
        "kitchen".to_string(),
    ];

    let reordered = reorder_room_ids(&current, "kitchen", "desk");
    assert_eq!(reordered, vec!["kitchen", "desk", "hallway"]);
}

#[test]
fn reorder_room_ids_moves_source_into_target_position_when_moving_down() {
    let current = vec![
        "desk".to_string(),
        "hallway".to_string(),
        "kitchen".to_string(),
    ];

    let reordered = reorder_room_ids(&current, "desk", "hallway");
    assert_eq!(reordered, vec!["hallway", "desk", "kitchen"]);
}

#[test]
fn apply_room_order_prefers_saved_sequence() {
    let sections = vec![
        RoomSection {
            id: "hallway".to_string(),
            can_craft_scenes: true,
            name: "Hallway".to_string(),
            active_light_count: 0,
            average_brightness: 0,
            lights: Vec::new(),
            scenes: Vec::new(),
        },
        RoomSection {
            id: "desk".to_string(),
            can_craft_scenes: true,
            name: "Desk".to_string(),
            active_light_count: 0,
            average_brightness: 0,
            lights: Vec::new(),
            scenes: Vec::new(),
        },
    ];

    let ordered = apply_room_order(sections, &vec!["desk".to_string()]);
    assert_eq!(ordered[0].id, "desk");
    assert_eq!(ordered[1].id, "hallway");
}

#[test]
fn serializes_only_requested_state_fields() {
    let update = LightStateUpdate {
        on: Some(true),
        brightness: Some(128),
        saturation: None,
        hue: Some(45000),
        transition_time: None,
    };

    let payload = update.to_payload();
    assert!(!payload.is_empty());

    assert_eq!(payload.on, Some(true));
    assert_eq!(payload.brightness, Some(128));
    assert_eq!(payload.hue, Some(45000));
    assert!(payload.saturation.is_none());
    assert!(payload.transition_time.is_none());
}
