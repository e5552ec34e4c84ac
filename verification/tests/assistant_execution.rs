use seasons::app_state::AudioSyncPreferences;
use seasons::hue::models::{
    AudioSyncColorPalette, AudioSyncSpeedMode, AudioSyncStartResult, Automation, BridgeConnection,
    EntertainmentArea, Group, GroupKind, Light, LightStateUpdate, Scene, Sensor,
};
use seasons::json::{get_member, remove_key, take_member, JsonMember, JsonNumber, JsonValue};
use seasons::ollama::decode::{normalize_action_key, normalize_action_value, planned_action_from_members};
use seasons::ollama::execute::{
    audio_start_outcome, audio_stop_outcome, audio_update_outcome, automation_outcome, build_device_context,
    command_input, filter_groups, find_entertainment_area, group_update_outcome, light_update_outcome,
    plan_action_step, position_by_id,
    scene_outcome, ActionStep, AudioSyncStartOutcome, BridgeSnapshot, CommandExecution,
};
use seasons::ollama::models::{ExecuteOllamaCommandRequest, OllamaSettings, PlannedAction, PlannedResponse};
use seasons::ollama::session::{
    bearer_token, http_failure_message, next_plan_stage, plan_messages, probe_outcome, request_timeout_seconds,
    PlanStage,
};

fn member(key: &str, value: JsonValue) -> JsonMember {
    JsonMember { key: key.to_string(), value }
}

fn text(value: &str) -> JsonValue {
    JsonValue::String(value.to_string())
}

fn connection(ip: &str) -> BridgeConnection {
    BridgeConnection { bridge_ip: ip.to_string(), username: "u".to_string(), client_key: None, application_id: None }
}

fn light(id: &str, name: &str) -> Light {
    Light {
        id: id.to_string(),
        name: name.to_string(),
        is_on: None,
        brightness: None,
        saturation: None,
        hue: None,
        xy_bits: None,
        reachable: Some(true),
        light_type: None,
        model_id: None,
    }
}

fn group(id: &str, kind: GroupKind, lights: &[&str]) -> Group {
    Group {
        id: id.to_string(),
        name: format!("group {id}"),
        kind,
        light_ids: lights.iter().map(|s| s.to_string()).collect(),
    }
}

fn scene(id: &str, group: Option<&str>) -> Scene {
    Scene {
        id: id.to_string(),
        name: id.to_string(),
        group_id: group.map(str::to_string),
        light_count: 0,
        scene_type: None,
        preview_color_soft: None,
        preview_color_main: None,
        preview_color_deep: None,
    }
}

fn area(id: &str) -> EntertainmentArea {
    EntertainmentArea {
        id: id.to_string(),
        name: id.to_string(),
        configuration_type: None,
        status: "inactive".to_string(),
        channels: vec![],
        light_ids: vec![],
    }
}

fn snapshot() -> BridgeSnapshot {
    BridgeSnapshot {
        lights: vec![light("1", "Lamp"), light("2", "Desk")],
        groups: vec![group("10", GroupKind::Room, &["1", "2"]), group("11", GroupKind::Zone, &[])],
        scenes: vec![scene("s1", Some("10"))],
        automations: vec![Automation {
            id: "a1".to_string(),
            name: "Wake".to_string(),
            enabled: Some(true),
            automation_type: None,
            script_id: None,
        }],
        entertainment_areas: vec![area("ea1"), area("ea2")],
        audio_sync_preferences: AudioSyncPreferences {
            selected_entertainment_area_id: Some("ea2".to_string()),
            selected_pipewire_target_object: Some(" sink ".to_string()),
            selected_sync_speed_mode: AudioSyncSpeedMode::Slow,
            selected_sync_color_palette: AudioSyncColorPalette::Ocean,
        },
    }
}

fn set_light(id: &str, brightness: Option<u16>) -> PlannedAction {
    PlannedAction::SetLightState {
        light_id: id.to_string(),
        on: None,
        brightness,
        saturation: None,
        hue: None,
        transition_time: None,
    }
}

fn finished_error(step: ActionStep) -> (String, String, String) {
    match step {
        ActionStep::Finished(o) => {
            assert_eq!(o.status, "error");
            (o.action, o.target, o.detail)
        }
        _ => panic!("expected a finished outcome"),
    }
}

#[test]
fn records_are_found_by_identifier() {
    let lights = vec![light("1", "a"), light("2", "b"), light("2", "c")];
    assert_eq!(position_by_id(&lights, "2"), Some(1));
    assert_eq!(position_by_id(&lights, "9"), None);
}

#[test]
fn commands_must_not_be_blank() {
    let request = ExecuteOllamaCommandRequest { input: "  dim the lights ".to_string(), connection: connection("1") };
    assert_eq!(command_input(&request), Ok("dim the lights".to_string()));
    let blank = ExecuteOllamaCommandRequest { input: " \n ".to_string(), connection: connection("1") };
    assert_eq!(command_input(&blank), Err("Command text is required.".to_string()));
}

#[test]
fn groups_are_filtered_by_kind_in_order() {
    let groups = vec![group("1", GroupKind::Zone, &[]), group("2", GroupKind::Room, &[]), group("3", GroupKind::Zone, &[])];
    assert_eq!(filter_groups(&groups, GroupKind::Zone).iter().map(|g| g.id.as_str()).collect::<Vec<_>>(), vec!["1", "3"]);
    assert_eq!(filter_groups(&groups, GroupKind::Room).len(), 1);
}

#[test]
fn device_context_lists_lights_and_sensors_by_name() {
    let lights = vec![light("2", "Desk"), Light { light_type: Some("Color lamp".to_string()), ..light("1", "Desk") }];
    let sensors = vec![Sensor {
        id: "9".to_string(),
        name: "Motion".to_string(),
        sensor_type: None,
        model_id: None,
        reachable: None,
        battery: None,
        last_updated: None,
        summary: None,
    }];
    let context = build_device_context(&lights, &sensors);
    assert_eq!(
        context.iter().map(|d| (d.id.as_str(), d.source.as_str(), d.device_type.as_str())).collect::<Vec<_>>(),
        vec![("1", "light", "Color lamp"), ("2", "light", "Light"), ("9", "sensor", "Sensor")]
    );
}

#[test]
fn light_actions_are_checked_against_the_snapshot() {
    let snap = snapshot();
    let bridge = connection("1.1.1.1");
    assert_eq!(
        finished_error(plan_action_step(&snap, &bridge, set_light("7", Some(10)))),
        ("setLightState".to_string(), "light:7".to_string(), "Unknown light ID for this bridge snapshot.".to_string())
    );
    assert_eq!(
        finished_error(plan_action_step(&snap, &bridge, set_light("1", None))),
        ("setLightState".to_string(), "light:1".to_string(), "At least one light-state field is required.".to_string())
    );
    match plan_action_step(&snap, &bridge, set_light("1", Some(999))) {
        ActionStep::SetLight { light_id, state } => {
            assert_eq!(light_id, "1");
            assert_eq!(state.on, Some(true));
            assert_eq!(state.brightness, Some(254));
        }
        _ => panic!("expected a light call"),
    }
}

#[test]
fn group_actions_need_a_known_group_with_lights() {
    let snap = snapshot();
    let bridge = connection("1.1.1.1");
    let group_action = |id: &str| PlannedAction::SetGroupState {
        group_id: id.to_string(),
        on: Some(false),
        brightness: None,
        saturation: None,
        hue: None,
        transition_time: None,
    };
    assert_eq!(
        finished_error(plan_action_step(&snap, &bridge, group_action("11"))).2,
        "The selected room/zone has no lights."
    );
    assert_eq!(
        finished_error(plan_action_step(&snap, &bridge, group_action("99"))).2,
        "Unknown room/zone ID for this bridge snapshot."
    );
    match plan_action_step(&snap, &bridge, group_action("10")) {
        ActionStep::SetGroup { group_id, light_ids, state } => {
            assert_eq!(group_id, "10");
            assert_eq!(light_ids, vec!["1".to_string(), "2".to_string()]);
            assert_eq!(state.on, Some(false));
        }
        _ => panic!("expected a group call"),
    }
}

#[test]
fn scenes_take_their_group_from_the_snapshot() {
    let snap = snapshot();
    let bridge = connection("1.1.1.1");
    match plan_action_step(&snap, &bridge, PlannedAction::ActivateScene { scene_id: "s1".to_string(), group_id: None }) {
        ActionStep::ActivateScene { scene_id, group_id } => {
            assert_eq!(scene_id, "s1");
            assert_eq!(group_id, Some("10".to_string()));
        }
        _ => panic!("expected a scene call"),
    }
    assert_eq!(
        finished_error(plan_action_step(&snap, &bridge, PlannedAction::ActivateScene { scene_id: "x".to_string(), group_id: None })),
        ("activateScene".to_string(), "scene:x".to_string(), "Unknown scene ID for this bridge snapshot.".to_string())
    );
    assert_eq!(
        finished_error(plan_action_step(
            &snap,
            &bridge,
            PlannedAction::SetAutomationEnabled { automation_id: "zz".to_string(), enabled: true }
        ))
        .1,
        "automation:zz"
    );
}

#[test]
fn audio_start_uses_saved_choices() {
    let snap = snapshot();
    let bridge = connection("1.1.1.1");
    let start = PlannedAction::StartAudioSync {
        entertainment_area_id: Some("  ".to_string()),
        pipewire_target_object: None,
        speed_mode: None,
        color_palette: Some("Fire Ice".to_string()),
        base_color_hex: Some("AA00cc".to_string()),
        brightness_ceiling: Some(0),
    };
    match plan_action_step(&snap, &bridge, start) {
        ActionStep::StartAudioSync { request, area_index } => {
            assert_eq!(area_index, 1);
            assert_eq!(request.entertainment_area_id, "ea2");
            assert_eq!(request.connection, bridge);
            assert_eq!(request.pipewire_target_object, Some("sink".to_string()));
            assert_eq!(request.speed_mode, AudioSyncSpeedMode::Slow);
            assert_eq!(request.color_palette, AudioSyncColorPalette::FireIce);
            assert_eq!(request.base_color_hex, Some("#aa00cc".to_string()));
            assert_eq!(request.brightness_ceiling, Some(1));
        }
        _ => panic!("expected an audio start"),
    }
    let unknown = PlannedAction::StartAudioSync {
        entertainment_area_id: Some("nope".to_string()),
        pipewire_target_object: None,
        speed_mode: None,
        color_palette: None,
        base_color_hex: None,
        brightness_ceiling: None,
    };
    assert_eq!(
        finished_error(plan_action_step(&snap, &bridge, unknown)).2,
        "Requested entertainment area is not present in the current snapshot."
    );
    let mut empty = snapshot();
    empty.entertainment_areas.clear();
    empty.audio_sync_preferences.selected_entertainment_area_id = None;
    let any = PlannedAction::StartAudioSync {
        entertainment_area_id: None,
        pipewire_target_object: None,
        speed_mode: None,
        color_palette: None,
        base_color_hex: None,
        brightness_ceiling: None,
    };
    assert_eq!(
        finished_error(plan_action_step(&empty, &bridge, any)).2,
        "No entertainment area is available. Create one in the Hue app first."
    );
    assert!(matches!(plan_action_step(&snap, &bridge, PlannedAction::StopAudioSync), ActionStep::StopAudioSync));
}

#[test]
fn audio_update_falls_back_to_saved_settings() {
    let update = PlannedAction::UpdateAudioSync {
        speed_mode: Some("HIGH".to_string()),
        color_palette: None,
        base_color_hex: Some("nothex".to_string()),
        brightness_ceiling: Some(500),
    };
    match plan_action_step(&snapshot(), &connection("1"), update) {
        ActionStep::UpdateAudioSync { request } => {
            assert_eq!(request.speed_mode, AudioSyncSpeedMode::High);
            assert_eq!(request.color_palette, AudioSyncColorPalette::Ocean);
            assert_eq!(request.base_color_hex, None);
            assert_eq!(request.brightness_ceiling, Some(254));
        }
        _ => panic!("expected an audio update"),
    }
}

#[test]
fn call_results_become_outcomes() {
    let (ok, changed) = light_update_outcome("3", Ok(()));
    assert!(changed);
    assert_eq!((ok.action.as_str(), ok.target.as_str(), ok.status.as_str(), ok.detail.as_str()), ("setLightState", "light:3", "ok", "Light state updated."));
    let (failed, changed) = light_update_outcome("3", Err("offline".to_string()));
    assert!(!changed);
    assert_eq!((failed.status.as_str(), failed.detail.as_str()), ("error", "offline"));
    assert_eq!(scene_outcome("s", Ok(())).0.detail, "Scene activated.");
    assert_eq!(automation_outcome("a", false, Ok(())).0.detail, "Automation disabled.");
    assert_eq!(automation_outcome("a", true, Err("x".to_string())).0.target, "automation:a");
    assert_eq!(audio_stop_outcome(Ok(())).0.detail, "Audio sync stopped.");
    assert_eq!(audio_update_outcome(Err("no".to_string())).0.status, "error");
    let (started, changed, switched) = audio_start_outcome(AudioSyncStartOutcome::Started(AudioSyncStartResult {
        connection: connection("9.9.9.9"),
        entertainment_area_id: "ea1".to_string(),
    }));
    assert!(changed);
    assert_eq!(started.detail, "Audio sync started for entertainment area ea1.");
    assert_eq!(switched, Some(connection("9.9.9.9")));
    let (timed_out, _, none) = audio_start_outcome(AudioSyncStartOutcome::TimedOut);
    assert_eq!(timed_out.detail, "Starting audio sync timed out.");
    assert_eq!(none, None);
}

#[test]
fn group_outcomes_count_successes() {
    let ids = vec!["1".to_string(), "2".to_string(), "3".to_string()];
    let (all, changed) = group_update_outcome("g", &ids, &vec![Ok(()), Ok(()), Ok(())]);
    assert!(changed);
    assert_eq!((all.status.as_str(), all.detail.as_str(), all.target.as_str()), ("ok", "Updated 3 lights", "group:g"));
    let (some, changed) = group_update_outcome("g", &ids, &vec![Ok(()), Err("a".to_string()), Err("b".to_string())]);
    assert!(changed);
    assert_eq!(some.status, "partial");
    assert_eq!(some.detail, "Updated 1/3 lights. Failures: 2: a; 3: b");
    let (none, changed) = group_update_outcome("g", &ids, &vec![Err("a".to_string()), Err("b".to_string()), Err("c".to_string())]);
    assert!(!changed);
    assert_eq!(none.status, "error");
    assert_eq!(none.detail, "1: a; 2: b; 3: c");
    let one = vec!["1".to_string()];
    assert_eq!(group_update_outcome("g", &one, &vec![Ok(())]).0.detail, "Updated 1 light");
}

#[test]
fn execution_collects_outcomes_and_composes_the_reply() {
    let snap = snapshot();
    let mut empty = CommandExecution::new(connection("1"), vec![]);
    assert!(empty.next_step(&snap).is_none());
    assert_eq!(empty.finish("  ").assistant_message, "No executable actions were returned by Ollama.");
    let noted = CommandExecution::new(connection("1"), vec![]).finish(" Nothing to do ");
    assert_eq!(noted.assistant_message, "Nothing to do (No executable actions were returned.)");

    let start = PlannedAction::StartAudioSync {
        entertainment_area_id: None,
        pipewire_target_object: None,
        speed_mode: None,
        color_palette: None,
        base_color_hex: None,
        brightness_ceiling: None,
    };
    let plan = vec![
        set_light("1", Some(100)),
        set_light("9", Some(100)),
        PlannedAction::ActivateScene { scene_id: "s1".to_string(), group_id: None },
        start,
    ];
    let mut execution = CommandExecution::new(connection("1"), plan);
    let lit = match execution.next_step(&snap) {
        Some(ActionStep::SetLight { light_id, .. }) => light_update_outcome(&light_id, Ok(())).0,
        other => panic!("unexpected {:?}", other.is_some()),
    };
    execution.record(lit.clone());
    let failed = match execution.next_step(&snap) {
        Some(ActionStep::ActivateScene { scene_id, .. }) => scene_outcome(&scene_id, Err("x".to_string())).0,
        other => panic!("unexpected {:?}", other.is_some()),
    };
    execution.record(failed.clone());
    match execution.next_step(&snap) {
        Some(ActionStep::StartAudioSync { request, .. }) => {
            assert_eq!(request.connection, connection("1"));
            execution.record_audio_start(AudioSyncStartOutcome::Started(AudioSyncStartResult {
                connection: connection("2"),
                entertainment_area_id: "ea2".to_string(),
            }));
        }
        other => panic!("unexpected {:?}", other.is_some()),
    }
    assert!(execution.next_step(&snap).is_none());
    let result = execution.finish("");
    assert_eq!(result.assistant_message, "Executed the requested lighting actions.");
    assert_eq!(
        result.actions.iter().map(|o| (o.action.as_str(), o.status.as_str())).collect::<Vec<_>>(),
        vec![("setLightState", "ok"), ("setLightState", "error"), ("activateScene", "error"), ("startAudioSync", "ok")]
    );
    assert_eq!(result.actions[0], lit);
    assert_eq!(result.actions[2], failed);
    assert!(result.bridge_state_changed);
    assert_eq!(result.updated_connection, Some(connection("2")));
}

#[test]
fn execution_without_success_leaves_the_bridge_unchanged() {
    let snap = snapshot();
    let start = PlannedAction::StartAudioSync {
        entertainment_area_id: None,
        pipewire_target_object: None,
        speed_mode: None,
        color_palette: None,
        base_color_hex: None,
        brightness_ceiling: None,
    };
    let mut execution = CommandExecution::new(connection("1"), vec![set_light("9", None), start]);
    match execution.next_step(&snap) {
        Some(ActionStep::StartAudioSync { .. }) => execution.record_audio_start(AudioSyncStartOutcome::TimedOut),
        other => panic!("unexpected {:?}", other.is_some()),
    }
    assert!(execution.next_step(&snap).is_none());
    let result = execution.finish("Tried.");
    assert_eq!(result.assistant_message, "Tried.");
    assert_eq!(result.actions.len(), 2);
    assert_eq!(result.actions[1].detail, "Starting audio sync timed out.");
    assert!(!result.bridge_state_changed);
    assert_eq!(result.updated_connection, None);
}

#[test]
fn entertainment_area_is_found_by_identifier() {
    let areas = vec![area("ea1"), area("ea2"), area("ea2")];
    assert_eq!(find_entertainment_area(&areas, "ea2"), Ok(1));
    assert_eq!(
        find_entertainment_area(&areas, " ea2"),
        Err("The selected entertainment area is no longer available.".to_string())
    );
    assert_eq!(
        find_entertainment_area(&vec![], "ea1"),
        Err("The selected entertainment area is no longer available.".to_string())
    );
}

fn settings(timeout: u64, api_key: Option<&str>) -> OllamaSettings {
    OllamaSettings {
        base_url: "http://h".to_string(),
        model: "m".to_string(),
        api_key: api_key.map(str::to_string),
        request_timeout_seconds: timeout,
    }
}

#[test]
fn session_settings_are_bounded_and_cleaned() {
    assert_eq!(request_timeout_seconds(&settings(1, None)), 5);
    assert_eq!(request_timeout_seconds(&settings(60, None)), 60);
    assert_eq!(request_timeout_seconds(&settings(600, None)), 120);
    assert_eq!(bearer_token(&settings(30, Some(" key "))), Some("key".to_string()));
    assert_eq!(bearer_token(&settings(30, Some("  "))), None);
    assert_eq!(http_failure_message(503, " busy "), "Ollama returned HTTP 503: busy");
    assert_eq!(probe_outcome(true, 200, ""), Ok(()));
    assert_eq!(probe_outcome(false, 404, "missing"), Err("Ollama returned HTTP 404: missing".to_string()));
}

#[test]
fn planning_conversations_grow_with_each_repair() {
    let initial = plan_messages(PlanStage::Initial, "{\"lights\":[]}", "turn on", "");
    assert_eq!(initial.iter().map(|m| m.role.as_str()).collect::<Vec<_>>(), vec!["system", "user"]);
    assert!(initial[0].content.ends_with("{\"lights\":[]}"));
    assert_eq!(initial[1].content, "turn on");
    let repair = plan_messages(PlanStage::Repair, "{}", "turn on", "{\"actions\":[]}");
    assert_eq!(repair.iter().map(|m| m.role.as_str()).collect::<Vec<_>>(), vec!["system", "user", "assistant", "user"]);
    assert_eq!(repair[2].content, "{\"actions\":[]}");
    let strict = plan_messages(PlanStage::StrictRepair, "{}", "turn on", "{}");
    assert_ne!(strict[3].content, repair[3].content);
}

#[test]
fn plans_without_actions_are_asked_again_twice_at_most() {
    let empty = PlannedResponse { assistant_message: String::new(), actions: vec![] };
    assert_eq!(next_plan_stage(PlanStage::Initial, "turn on", &empty), Some(PlanStage::Repair));
    assert_eq!(next_plan_stage(PlanStage::Repair, "turn on", &empty), Some(PlanStage::StrictRepair));
    assert_eq!(next_plan_stage(PlanStage::StrictRepair, "turn on", &empty), None);
    let acting = PlannedResponse { assistant_message: String::new(), actions: vec![PlannedAction::StopAudioSync] };
    assert_eq!(next_plan_stage(PlanStage::Initial, "stop", &acting), None);
}

#[test]
fn json_members_are_found_removed_and_taken() {
    let mut members = vec![member("a", text("1")), member("b", text("2")), member("a", text("3"))];
    assert_eq!(get_member(&members, "a"), Some(&text("1")));
    assert_eq!(get_member(&members, "z"), None);
    assert_eq!(take_member(&mut members, "b"), Some(text("2")));
    assert_eq!(members.len(), 2);
    remove_key(&mut members, "a");
    assert!(members.is_empty());
}

#[test]
fn action_keys_are_normalized() {
    let mut map = vec![member("lightId", text("4")), member("type", text("x"))];
    normalize_action_key(&mut map, "light_id", &["lightId"]);
    assert_eq!(get_member(&map, "light_id"), Some(&text("4")));
    assert_eq!(get_member(&map, "lightId"), None);
    let mut kept = vec![member("light_id", text("1")), member("lightId", text("2"))];
    normalize_action_key(&mut kept, "light_id", &["lightId"]);
    assert_eq!(get_member(&kept, "light_id"), Some(&text("1")));
    assert_eq!(get_member(&kept, "lightId"), Some(&text("2")));
}

#[test]
fn action_values_are_normalized_and_decoded() {
    let raw = JsonValue::Object(vec![
        member("type", text(" set-light_state ")),
        member("lightId", text("5")),
        member("brightness", JsonValue::Number(JsonNumber::Unsigned(80))),
        member("transitionTime", JsonValue::Number(JsonNumber::Unsigned(3))),
    ]);
    let JsonValue::Object(normalized) = normalize_action_value(raw).unwrap() else { panic!("object expected") };
    assert_eq!(get_member(&normalized, "type"), Some(&text("setLightState")));
    assert_eq!(get_member(&normalized, "light_id"), Some(&text("5")));
    assert_eq!(
        planned_action_from_members(&normalized),
        Some(PlannedAction::SetLightState {
            light_id: "5".to_string(),
            on: None,
            brightness: Some(80),
            saturation: None,
            hue: None,
            transition_time: Some(3),
        })
    );
    assert_eq!(normalize_action_value(JsonValue::Object(vec![member("type", text("dance"))])), None);
    assert_eq!(normalize_action_value(text("setLightState")), None);
    let missing_id = vec![member("type", text("setLightState"))];
    assert_eq!(planned_action_from_members(&missing_id), None);
    let stop = vec![member("type", text("stopAudioSync"))];
    assert_eq!(planned_action_from_members(&stop), Some(PlannedAction::StopAudioSync));
}

#[test]
fn light_state_helper_is_consistent_with_plans() {
    let state = LightStateUpdate { on: Some(true), brightness: Some(254), saturation: None, hue: None, transition_time: None };
    match plan_action_step(&snapshot(), &connection("1"), set_light("2", Some(300))) {
        ActionStep::SetLight { state: s, .. } => assert_eq!(s, state),
        _ => panic!("expected a light call"),
    }
}
