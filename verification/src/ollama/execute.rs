//! Carrying out a plan against a bridge snapshot.  Each planned action is first checked
//! against the snapshot (`plan_action_step`); what is left is one bridge or audio call,
//! which the caller makes, handing the result back to the matching `*_outcome` function;
//! `CommandExecution` collects the outcomes and composes the final reply.
use vstd::prelude::*;
use crate::app_state::AudioSyncPreferences;
use crate::hue::config::opt_chars;
use crate::hue::models::{
    AudioSyncStartRequest, AudioSyncStartResult, AudioSyncUpdateRequest, Automation, BridgeConnection,
    EntertainmentArea, Group, GroupKind, Light, LightStateUpdate, Scene, Sensor,
};
use crate::hue::order::{lemma_name_then_id_asym, name_then_id_before, name_then_id_precedes};
use crate::ollama::models::{
    ExecuteOllamaCommandRequest, ExecuteOllamaCommandResult, OllamaActionOutcome, PlannedAction,
};
use crate::ollama::rules::{
    action_error, action_ok, action_partial, build_light_state_update, clamp_brightness_ceiling,
    clamp_to, clean_optional_string, cleaned, color_palette_spec, hex_color_spec, light_state_spec,
    normalize_hex_color, opt_str, outcome, outcome_view, parse_audio_sync_color_palette,
    parse_audio_sync_speed_mode, pluralize, speed_mode_spec,
};
use crate::sorting::{Precedence, sort_by_order, sorted_by, stably_rearranged};
use crate::string_ops::{join, join_spec, views};
use crate::text::{decimal, decimal_string, owned, str_eq, trim, trim_spec};

verus! {

/// A record with an identifier.
pub trait Identified {
    spec fn id_view(&self) -> Seq<char>;

    fn id_str(&self) -> (r: &str)
        ensures
            r@ == self.id_view(),
    ;
}

impl Identified for Light {
    open spec fn id_view(&self) -> Seq<char> {
        self.id@
    }

    fn id_str(&self) -> (r: &str) {
        self.id.as_str()
    }
}

impl Identified for Group {
    open spec fn id_view(&self) -> Seq<char> {
        self.id@
    }

    fn id_str(&self) -> (r: &str) {
        self.id.as_str()
    }
}

impl Identified for Scene {
    open spec fn id_view(&self) -> Seq<char> {
        self.id@
    }

    fn id_str(&self) -> (r: &str) {
        self.id.as_str()
    }
}

impl Identified for Automation {
    open spec fn id_view(&self) -> Seq<char> {
        self.id@
    }

    fn id_str(&self) -> (r: &str) {
        self.id.as_str()
    }
}

impl Identified for EntertainmentArea {
    open spec fn id_view(&self) -> Seq<char> {
        self.id@
    }

    fn id_str(&self) -> (r: &str) {
        self.id.as_str()
    }
}

/// Index of the first record with identifier `id`.
pub open spec fn first_with_id<T: Identified>(items: Seq<T>, id: Seq<char>) -> Option<int> {
    if exists|i: int| 0 <= i < items.len() && (#[trigger] items[i]).id_view() == id {
        Some(
            choose|i: int|
                0 <= i < items.len() && (#[trigger] items[i]).id_view() == id && forall|j: int|
                    0 <= j < i ==> (#[trigger] items[j]).id_view() != id,
        )
    } else {
        None
    }
}

/// Finds the first record with identifier `id`.
pub fn position_by_id<T: Identified>(items: &Vec<T>, id: &str) -> (r: Option<usize>)
    ensures
        match r {
            Some(i) => first_with_id(items@, id@) == Some(i as int) && i < items@.len(),
            None => first_with_id(items@, id@) is None,
        },
{
    let mut i: usize = 0;
    while i < items.len()
        invariant
            i <= items@.len(),
            forall|j: int| 0 <= j < i ==> (#[trigger] items@[j]).id_view() != id@,
        decreases items.len() - i,
    {
        if str_eq(items[i].id_str(), id) {
            proof {
                let k = choose|k: int|
                    0 <= k < items@.len() && (#[trigger] items@[k]).id_view() == id@ && forall|j: int|
                        0 <= j < k ==> (#[trigger] items@[j]).id_view() != id@;
                assert(items@[i as int].id_view() == id@);
                if k < i {
                    assert(items@[k].id_view() != id@);
                } else if k > i {
                    assert(items@[i as int].id_view() != id@);
                }
            }
            return Some(i);
        }
        i += 1;
    }
    None
}

/// The message for an entertainment area that is no longer on the bridge.
pub open spec fn area_unavailable_message() -> Seq<char> {
    "The selected entertainment area is no longer available."@
}

/// The entertainment area that audio sync is started on: the first with identifier
/// `id`, compared as given, or the message that it is no longer available.
pub fn find_entertainment_area(areas: &Vec<EntertainmentArea>, id: &str) -> (r: Result<usize, String>)
    ensures
        match first_with_id(areas@, id@) {
            Some(k) => r == Ok::<usize, String>(k as usize),
            None => r matches Err(e) && e@ == area_unavailable_message(),
        },
{
    match position_by_id(areas, id) {
        Some(i) => Ok(i),
        None => Err(String::from_str("The selected entertainment area is no longer available.")),
    }
}

/// The prompt input: the command trimmed, refused when blank.
pub fn command_input(request: &ExecuteOllamaCommandRequest) -> (r: Result<String, String>)
    ensures
        trim_spec(request.input@).len() == 0 ==> (r matches Err(e) && e@ == "Command text is required."@),
        trim_spec(request.input@).len() > 0 ==> (r matches Ok(s) && s@ == trim_spec(request.input@)),
{
    let input = trim(request.input.as_str());
    if input.unicode_len() == 0 {
        return Err(String::from_str("Command text is required."));
    }
    Ok(owned(input))
}

/// The rooms among the groups, in order.
pub open spec fn groups_of_kind(groups: Seq<Group>, kind: GroupKind) -> Seq<Group>
    decreases groups.len(),
{
    if groups.len() == 0 {
        Seq::empty()
    } else if groups.last().kind == kind {
        groups_of_kind(groups.drop_last(), kind).push(groups.last())
    } else {
        groups_of_kind(groups.drop_last(), kind)
    }
}

/// Two lists of groups agree element by element.
pub open spec fn same_groups(a: Seq<Group>, b: Seq<Group>) -> bool {
    a.len() == b.len() && forall|i: int| 0 <= i < a.len() ==> (#[trigger] a[i]).same_as(b[i])
}

/// The groups of one kind, in order.
pub fn filter_groups(groups: &Vec<Group>, kind: GroupKind) -> (r: Vec<Group>)
    ensures
        same_groups(r@, groups_of_kind(groups@, kind)),
{
    let mut out: Vec<Group> = Vec::new();
    let mut i: usize = 0;
    while i < groups.len()
        invariant
            i <= groups@.len(),
            same_groups(out@, groups_of_kind(groups@.take(i as int), kind)),
        decreases groups.len() - i,
    {
        assert(groups@.take(i + 1).drop_last() =~= groups@.take(i as int));
        if groups[i].kind == kind {
            out.push(groups[i].duplicate());
        }
        i += 1;
    }
    assert(groups@.take(groups@.len() as int) =~= groups@);
    out
}

/// A light or sensor as the planner is told about it.
#[derive(Clone, Debug, PartialEq, Eq)]
pub struct DeviceContextItem {
    pub id: String,
    pub name: String,
    pub source: String,
    pub device_type: String,
    pub reachable: Option<bool>,
}

/// Device items ordered by name, then identifier.
pub struct DeviceByNameThenId;

impl Precedence<DeviceContextItem> for DeviceByNameThenId {
    open spec fn before(a: DeviceContextItem, b: DeviceContextItem) -> bool {
        name_then_id_before(a.name@, a.id@, b.name@, b.id@)
    }

    proof fn lemma_before_asymmetric(a: DeviceContextItem, b: DeviceContextItem) {
        lemma_name_then_id_asym(a.name@, a.id@, b.name@, b.id@);
    }

    fn precedes(a: &DeviceContextItem, b: &DeviceContextItem) -> (r: bool) {
        name_then_id_precedes(a.name.as_str(), a.id.as_str(), b.name.as_str(), b.id.as_str())
    }
}

/// The item describing a light.
pub open spec fn light_item_matches(item: DeviceContextItem, light: Light) -> bool {
    &&& item.id@ == light.id@
    &&& item.name@ == light.name@
    &&& item.source@ == "light"@
    &&& item.device_type@ == (match light.light_type {
        Some(t) => t@,
        None => "Light"@,
    })
    &&& item.reachable == light.reachable
}

/// The item describing a sensor.
pub open spec fn sensor_item_matches(item: DeviceContextItem, sensor: Sensor) -> bool {
    &&& item.id@ == sensor.id@
    &&& item.name@ == sensor.name@
    &&& item.source@ == "sensor"@
    &&& item.device_type@ == (match sensor.sensor_type {
        Some(t) => t@,
        None => "Sensor"@,
    })
    &&& item.reachable == sensor.reachable
}

/// The devices the planner is told about: one item per light, then one per sensor,
/// sorted by name and identifier.
pub fn build_device_context(lights: &Vec<Light>, sensors: &Vec<Sensor>) -> (r: Vec<DeviceContextItem>)
    ensures
        r@.len() == lights@.len() + sensors@.len(),
        sorted_by::<DeviceContextItem, DeviceByNameThenId>(r@),
        exists|unsorted: Seq<DeviceContextItem>|
            #![trigger unsorted.to_multiset()]
            unsorted.to_multiset() == r@.to_multiset() && unsorted.len() == lights@.len() + sensors@.len()
                && stably_rearranged::<DeviceContextItem, DeviceByNameThenId>(unsorted, r@) && (forall|i: int|
                0 <= i < lights@.len() ==> light_item_matches(#[trigger] unsorted[i], lights@[i])) && (forall|
                i: int,
            |
                0 <= i < sensors@.len() ==> sensor_item_matches(
                    #[trigger] unsorted[lights@.len() + i],
                    sensors@[i],
                )),
{
    let mut devices: Vec<DeviceContextItem> = Vec::new();
    let mut i: usize = 0;
    while i < lights.len()
        invariant
            i <= lights@.len(),
            devices@.len() == i,
            forall|k: int| 0 <= k < i ==> light_item_matches(#[trigger] devices@[k], lights@[k]),
        decreases lights.len() - i,
    {
        let light = &lights[i];
        let device_type = match &light.light_type {
            Some(t) => t.clone(),
            None => String::from_str("Light"),
        };
        devices.push(
            DeviceContextItem {
                id: light.id.clone(),
                name: light.name.clone(),
                source: String::from_str("light"),
                device_type,
                reachable: light.reachable,
            },
        );
        i += 1;
    }
    let mut j: usize = 0;
    while j < sensors.len()
        invariant
            j <= sensors@.len(),
            devices@.len() == lights@.len() + j,
            forall|k: int| 0 <= k < lights@.len() ==> light_item_matches(#[trigger] devices@[k], lights@[k]),
            forall|k: int|
                0 <= k < j ==> sensor_item_matches(#[trigger] devices@[lights@.len() + k], sensors@[k]),
        decreases sensors.len() - j,
    {
        let sensor = &sensors[j];
        let device_type = match &sensor.sensor_type {
            Some(t) => t.clone(),
            None => String::from_str("Sensor"),
        };
        devices.push(
            DeviceContextItem {
                id: sensor.id.clone(),
                name: sensor.name.clone(),
                source: String::from_str("sensor"),
                device_type,
                reachable: sensor.reachable,
            },
        );
        proof {
            assert forall|k: int| 0 <= k < j + 1 implies sensor_item_matches(
                #[trigger] devices@[lights@.len() + k],
                sensors@[k],
            ) by {}
        }
        j += 1;
    }
    let ghost unsorted = devices@;
    let r = sort_by_order::<DeviceContextItem, DeviceByNameThenId>(devices);
    assert(unsorted.to_multiset() == r@.to_multiset());
    r
}

/// The target label of an outcome: a prefix such as `light:` and an identifier.
pub open spec fn target_label(prefix: Seq<char>, id: Seq<char>) -> Seq<char> {
    prefix + id
}

fn target(prefix: &str, id: &str) -> (r: String)
    ensures
        r@ == target_label(prefix@, id@),
{
    owned(prefix).concat(id)
}

/// What is left of a planned action after the checks against the snapshot: an outcome
/// already decided, or the one call that carries it out.
pub enum ActionStep {
    Finished(OllamaActionOutcome),
    SetLight { light_id: String, state: LightStateUpdate },
    SetGroup { group_id: String, light_ids: Vec<String>, state: LightStateUpdate },
    ActivateScene { scene_id: String, group_id: Option<String> },
    SetAutomationEnabled { automation_id: String, enabled: bool },
    StartAudioSync { request: AudioSyncStartRequest, area_index: usize },
    StopAudioSync,
    UpdateAudioSync { request: AudioSyncUpdateRequest },
}

/// What the planner knew of the bridge when it planned.
pub struct BridgeSnapshot {
    pub lights: Vec<Light>,
    pub groups: Vec<Group>,
    pub scenes: Vec<Scene>,
    pub automations: Vec<Automation>,
    pub entertainment_areas: Vec<EntertainmentArea>,
    pub audio_sync_preferences: AudioSyncPreferences,
}

/// The step is a finished error outcome with these fields.
pub open spec fn finished_error(step: ActionStep, action: Seq<char>, target: Seq<char>, detail: Seq<char>) -> bool {
    step matches ActionStep::Finished(o) && outcome_view(o) == outcome(action, target, "error"@, detail)
}

/// The entertainment area a start request names: its own, else the saved choice, else
/// the first area of the snapshot.
pub open spec fn start_area_id(requested: Option<String>, snapshot: BridgeSnapshot) -> Option<Seq<char>> {
    match cleaned(opt_chars(requested)) {
        Some(a) => Some(a),
        None => match cleaned(opt_chars(snapshot.audio_sync_preferences.selected_entertainment_area_id)) {
            Some(a) => Some(a),
            None => if snapshot.entertainment_areas@.len() > 0 {
                Some(snapshot.entertainment_areas@[0].id@)
            } else {
                None
            },
        },
    }
}

/// The audio output a start request names: its own, else the saved choice.
pub open spec fn start_target(requested: Option<String>, snapshot: BridgeSnapshot) -> Option<Seq<char>> {
    match cleaned(opt_chars(requested)) {
        Some(t) => Some(t),
        None => cleaned(opt_chars(snapshot.audio_sync_preferences.selected_pipewire_target_object)),
    }
}

/// The views of an optional string.
pub open spec fn as_str_opt(o: Option<String>) -> Option<Seq<char>> {
    opt_chars(o)
}

/// The step that a planned action comes to against the snapshot, with `connection` as
/// the connection an audio sync is started on.
pub open spec fn action_step_matches(
    step: ActionStep,
    snapshot: BridgeSnapshot,
    connection: BridgeConnection,
    action: PlannedAction,
) -> bool {
    match action {
        PlannedAction::SetLightState { light_id, on, brightness, saturation, hue, transition_time } => {
            let t = target_label("light:"@, light_id@);
            if first_with_id(snapshot.lights@, light_id@) is None {
                finished_error(step, "setLightState"@, t, "Unknown light ID for this bridge snapshot."@)
            } else {
                match light_state_spec(on, brightness, saturation, hue, transition_time) {
                    None => finished_error(step, "setLightState"@, t, "At least one light-state field is required."@),
                    Some(state) => step matches ActionStep::SetLight { light_id: id, state: s } && id@
                        == light_id@ && s == state,
                }
            }
        },
        PlannedAction::SetGroupState { group_id, on, brightness, saturation, hue, transition_time } => {
            let t = target_label("group:"@, group_id@);
            match first_with_id(snapshot.groups@, group_id@) {
                None => finished_error(step, "setGroupState"@, t, "Unknown room/zone ID for this bridge snapshot."@),
                Some(g) => match light_state_spec(on, brightness, saturation, hue, transition_time) {
                    None => finished_error(step, "setGroupState"@, t, "At least one light-state field is required."@),
                    Some(state) => if snapshot.groups@[g].light_ids@.len() == 0 {
                        finished_error(step, "setGroupState"@, t, "The selected room/zone has no lights."@)
                    } else {
                        step matches ActionStep::SetGroup { group_id: id, light_ids, state: s } && id@
                            == group_id@ && light_ids@ == snapshot.groups@[g].light_ids@ && s == state
                    },
                },
            }
        },
        PlannedAction::ActivateScene { scene_id, group_id } => {
            match first_with_id(snapshot.scenes@, scene_id@) {
                None => finished_error(
                    step,
                    "activateScene"@,
                    target_label("scene:"@, scene_id@),
                    "Unknown scene ID for this bridge snapshot."@,
                ),
                Some(k) => step matches ActionStep::ActivateScene { scene_id: id, group_id: g } && id@
                    == scene_id@ && g == (match group_id {
                    Some(x) => Some(x),
                    None => snapshot.scenes@[k].group_id,
                }),
            }
        },
        PlannedAction::SetAutomationEnabled { automation_id, enabled } => {
            if first_with_id(snapshot.automations@, automation_id@) is None {
                finished_error(
                    step,
                    "setAutomationEnabled"@,
                    target_label("automation:"@, automation_id@),
                    "Unknown automation ID for this bridge snapshot."@,
                )
            } else {
                step matches ActionStep::SetAutomationEnabled { automation_id: id, enabled: e } && id@
                    == automation_id@ && e == enabled
            }
        },
        PlannedAction::StartAudioSync {
            entertainment_area_id,
            pipewire_target_object,
            speed_mode,
            color_palette,
            base_color_hex,
            brightness_ceiling,
        } => {
            match start_area_id(entertainment_area_id, snapshot) {
                None => finished_error(
                    step,
                    "startAudioSync"@,
                    "audio-sync"@,
                    "No entertainment area is available. Create one in the Hue app first."@,
                ),
                Some(area_id) => match first_with_id(snapshot.entertainment_areas@, area_id) {
                    None => finished_error(
                        step,
                        "startAudioSync"@,
                        "audio-sync"@,
                        "Requested entertainment area is not present in the current snapshot."@,
                    ),
                    Some(k) => step matches ActionStep::StartAudioSync { request, area_index } && area_index
                        == k && request.connection == connection
                        && request.entertainment_area_id@ == area_id && as_str_opt(
                        request.pipewire_target_object,
                    ) == start_target(pipewire_target_object, snapshot) && request.speed_mode
                        == speed_mode_spec(
                        as_str_opt(speed_mode),
                        snapshot.audio_sync_preferences.selected_sync_speed_mode,
                    ) && request.color_palette == color_palette_spec(
                        as_str_opt(color_palette),
                        snapshot.audio_sync_preferences.selected_sync_color_palette,
                    ) && as_str_opt(request.base_color_hex) == hex_color_spec(as_str_opt(base_color_hex))
                        && request.brightness_ceiling == (match brightness_ceiling {
                        Some(v) => Some(clamp_to(v as int, 1, 254) as u8),
                        None => None,
                    }),
                },
            }
        },
        PlannedAction::StopAudioSync => step is StopAudioSync,
        PlannedAction::UpdateAudioSync { speed_mode, color_palette, base_color_hex, brightness_ceiling } => {
            step matches ActionStep::UpdateAudioSync { request } && request.speed_mode == speed_mode_spec(
                as_str_opt(speed_mode),
                snapshot.audio_sync_preferences.selected_sync_speed_mode,
            ) && request.color_palette == color_palette_spec(
                as_str_opt(color_palette),
                snapshot.audio_sync_preferences.selected_sync_color_palette,
            ) && as_str_opt(request.base_color_hex) == hex_color_spec(as_str_opt(base_color_hex))
                && request.brightness_ceiling == (match brightness_ceiling {
                Some(v) => Some(clamp_to(v as int, 1, 254) as u8),
                None => None,
            })
        },
    }
}

/// An optional string as a slice.
fn as_deref(o: &Option<String>) -> (r: Option<&str>)
    ensures
        opt_str(r) == opt_chars(*o),
{
    match o {
        Some(s) => Some(s.as_str()),
        None => None,
    }
}

/// An equal copy of an optional string.
fn copy_opt(o: &Option<String>) -> (r: Option<String>)
    ensures
        r == *o,
{
    match o {
        Some(s) => Some(s.clone()),
        None => None,
    }
}

/// Checks a planned action against the snapshot.
pub fn plan_action_step(snapshot: &BridgeSnapshot, connection: &BridgeConnection, action: PlannedAction) -> (r:
    ActionStep)
    ensures
        action_step_matches(r, *snapshot, *connection, action),
{
    match action {
        PlannedAction::SetLightState { light_id, on, brightness, saturation, hue, transition_time } => {
            if position_by_id(&snapshot.lights, light_id.as_str()).is_none() {
                return ActionStep::Finished(
                    action_error(
                        "setLightState",
                        target("light:", light_id.as_str()),
                        String::from_str("Unknown light ID for this bridge snapshot."),
                    ),
                );
            }
            match build_light_state_update(on, brightness, saturation, hue, transition_time) {
                Ok(state) => ActionStep::SetLight { light_id, state },
                Err(e) => ActionStep::Finished(action_error("setLightState", target("light:", light_id.as_str()), e)),
            }
        },
        PlannedAction::SetGroupState { group_id, on, brightness, saturation, hue, transition_time } => {
            let g = match position_by_id(&snapshot.groups, group_id.as_str()) {
                Some(g) => g,
                None => {
                    return ActionStep::Finished(
                        action_error(
                            "setGroupState",
                            target("group:", group_id.as_str()),
                            String::from_str("Unknown room/zone ID for this bridge snapshot."),
                        ),
                    );
                },
            };
            let state = match build_light_state_update(on, brightness, saturation, hue, transition_time) {
                Ok(state) => state,
                Err(e) => {
                    return ActionStep::Finished(
                        action_error("setGroupState", target("group:", group_id.as_str()), e),
                    );
                },
            };
            if snapshot.groups[g].light_ids.len() == 0 {
                return ActionStep::Finished(
                    action_error(
                        "setGroupState",
                        target("group:", group_id.as_str()),
                        String::from_str("The selected room/zone has no lights."),
                    ),
                );
            }
            let light_ids = snapshot.groups[g].light_ids.clone();
            assert(light_ids@ =~= snapshot.groups@[g as int].light_ids@);
            ActionStep::SetGroup { group_id, light_ids, state }
        },
        PlannedAction::ActivateScene { scene_id, group_id } => {
            let k = match position_by_id(&snapshot.scenes, scene_id.as_str()) {
                Some(k) => k,
                None => {
                    return ActionStep::Finished(
                        action_error(
                            "activateScene",
                            target("scene:", scene_id.as_str()),
                            String::from_str("Unknown scene ID for this bridge snapshot."),
                        ),
                    );
                },
            };
            let resolved = match group_id {
                Some(x) => Some(x),
                None => copy_opt(&snapshot.scenes[k].group_id),
            };
            ActionStep::ActivateScene { scene_id, group_id: resolved }
        },
        PlannedAction::SetAutomationEnabled { automation_id, enabled } => {
            if position_by_id(&snapshot.automations, automation_id.as_str()).is_none() {
                return ActionStep::Finished(
                    action_error(
                        "setAutomationEnabled",
                        target("automation:", automation_id.as_str()),
                        String::from_str("Unknown automation ID for this bridge snapshot."),
                    ),
                );
            }
            ActionStep::SetAutomationEnabled { automation_id, enabled }
        },
        PlannedAction::StartAudioSync {
            entertainment_area_id,
            pipewire_target_object,
            speed_mode,
            color_palette,
            base_color_hex,
            brightness_ceiling,
        } => {
            let prefs = &snapshot.audio_sync_preferences;
            let area_id = match clean_optional_string(entertainment_area_id) {
                Some(a) => Some(a),
                None => match clean_optional_string(copy_opt(&prefs.selected_entertainment_area_id)) {
                    Some(a) => Some(a),
                    None => if snapshot.entertainment_areas.len() > 0 {
                        Some(snapshot.entertainment_areas[0].id.clone())
                    } else {
                        None
                    },
                },
            };
            let area_id = match area_id {
                Some(a) => a,
                None => {
                    return ActionStep::Finished(
                        action_error(
                            "startAudioSync",
                            String::from_str("audio-sync"),
                            String::from_str("No entertainment area is available. Create one in the Hue app first."),
                        ),
                    );
                },
            };
            let k = match position_by_id(&snapshot.entertainment_areas, area_id.as_str()) {
                Some(k) => k,
                None => {
                    return ActionStep::Finished(
                        action_error(
                            "startAudioSync",
                            String::from_str("audio-sync"),
                            String::from_str("Requested entertainment area is not present in the current snapshot."),
                        ),
                    );
                },
            };
            let target_object = match clean_optional_string(pipewire_target_object) {
                Some(t) => Some(t),
                None => clean_optional_string(copy_opt(&prefs.selected_pipewire_target_object)),
            };
            let request = AudioSyncStartRequest {
                connection: connection.duplicate(),
                entertainment_area_id: area_id,
                pipewire_target_object: target_object,
                speed_mode: parse_audio_sync_speed_mode(as_deref(&speed_mode), prefs.selected_sync_speed_mode),
                color_palette: parse_audio_sync_color_palette(
                    as_deref(&color_palette),
                    prefs.selected_sync_color_palette,
                ),
                base_color_hex: normalize_hex_color(base_color_hex),
                brightness_ceiling: clamp_brightness_ceiling(brightness_ceiling),
            };
            ActionStep::StartAudioSync { request, area_index: k }
        },
        PlannedAction::StopAudioSync => ActionStep::StopAudioSync,
        PlannedAction::UpdateAudioSync { speed_mode, color_palette, base_color_hex, brightness_ceiling } => {
            let prefs = &snapshot.audio_sync_preferences;
            let request = AudioSyncUpdateRequest {
                speed_mode: parse_audio_sync_speed_mode(as_deref(&speed_mode), prefs.selected_sync_speed_mode),
                color_palette: parse_audio_sync_color_palette(
                    as_deref(&color_palette),
                    prefs.selected_sync_color_palette,
                ),
                base_color_hex: normalize_hex_color(base_color_hex),
                brightness_ceiling: clamp_brightness_ceiling(brightness_ceiling),
            };
            ActionStep::UpdateAudioSync { request }
        },
    }
}

/// The outcome of setting one light's state.
pub fn light_update_outcome(light_id: &str, result: Result<(), String>) -> (r: (OllamaActionOutcome, bool))
    ensures
        match result {
            Ok(_) => r.1 && outcome_view(r.0) == outcome(
                "setLightState"@,
                target_label("light:"@, light_id@),
                "ok"@,
                "Light state updated."@,
            ),
            Err(e) => !r.1 && outcome_view(r.0) == outcome(
                "setLightState"@,
                target_label("light:"@, light_id@),
                "error"@,
                e@,
            ),
        },
{
    match result {
        Ok(_) => (
            action_ok("setLightState", target("light:", light_id), String::from_str("Light state updated.")),
            true,
        ),
        Err(e) => (action_error("setLightState", target("light:", light_id), e), false),
    }
}

/// Number of calls that succeeded.
pub open spec fn success_count(results: Seq<Result<(), String>>) -> nat
    decreases results.len(),
{
    if results.len() == 0 {
        0
    } else {
        success_count(results.drop_last()) + (if results.last() is Ok {
            1nat
        } else {
            0nat
        })
    }
}

/// One `<light>: <error>` entry per failed call, in order.
pub open spec fn group_failures(light_ids: Seq<String>, results: Seq<Result<(), String>>) -> Seq<Seq<char>>
    decreases results.len(),
{
    if results.len() == 0 {
        Seq::empty()
    } else {
        let rest = group_failures(light_ids.drop_last(), results.drop_last());
        match results.last() {
            Ok(_) => rest,
            Err(e) => rest.push(light_ids.last()@ + ": "@ + e@),
        }
    }
}

/// The detail of a group update, its status, and whether the bridge changed: all lights
/// updated, some of them (with the failures listed), or none.
pub open spec fn group_outcome_spec(light_ids: Seq<String>, results: Seq<Result<(), String>>) -> (
    Seq<char>,
    Seq<char>,
    bool,
) {
    let n = success_count(results);
    let total = light_ids.len();
    let failures = join_spec(group_failures(light_ids, results), "; "@);
    if n == total {
        (
            "Updated "@ + decimal(n) + " light"@ + (if n == 1 {
                ""@
            } else {
                "s"@
            }),
            "ok"@,
            true,
        )
    } else if n > 0 {
        (
            "Updated "@ + decimal(n) + "/"@ + decimal(total) + " lights. Failures: "@ + failures,
            "partial"@,
            true,
        )
    } else {
        (failures, "error"@, false)
    }
}

/// The outcome of setting the state of every light of a group, from the result of each
/// call in the order of `light_ids`.
pub fn group_update_outcome(group_id: &str, light_ids: &Vec<String>, results: &Vec<Result<(), String>>) -> (r: (
    OllamaActionOutcome,
    bool,
))
    requires
        light_ids@.len() == results@.len(),
    ensures
        ({
            let (detail, status, changed) = group_outcome_spec(light_ids@, results@);
            outcome_view(r.0) == outcome("setGroupState"@, target_label("group:"@, group_id@), status, detail)
                && r.1 == changed
        }),
{
    let mut success: usize = 0;
    let mut failures: Vec<String> = Vec::new();
    let mut i: usize = 0;
    while i < results.len()
        invariant
            i <= results@.len(),
            light_ids@.len() == results@.len(),
            success <= i,
            success == success_count(results@.take(i as int)),
            views(failures@) == group_failures(light_ids@.take(i as int), results@.take(i as int)),
        decreases results.len() - i,
    {
        assert(results@.take(i + 1).drop_last() =~= results@.take(i as int));
        assert(light_ids@.take(i + 1).drop_last() =~= light_ids@.take(i as int));
        match &results[i] {
            Ok(_) => {
                success += 1;
            },
            Err(e) => {
                let ghost before = views(failures@);
                let entry = light_ids[i].clone().concat(": ").concat(e.as_str());
                failures.push(entry);
                assert(views(failures@) =~= before.push(entry@));
            },
        }
        i += 1;
    }
    assert(results@.take(results@.len() as int) =~= results@);
    assert(light_ids@.take(light_ids@.len() as int) =~= light_ids@);
    let joined = join(&failures, "; ");
    let target_name = target("group:", group_id);
    if success == light_ids.len() {
        let detail = String::from_str("Updated ").concat(decimal_string(success as u64).as_str()).concat(
            " light",
        ).concat(pluralize(success));
        (action_ok("setGroupState", target_name, detail), true)
    } else if success > 0 {
        let detail = String::from_str("Updated ").concat(decimal_string(success as u64).as_str()).concat(
            "/",
        ).concat(decimal_string(light_ids.len() as u64).as_str()).concat(" lights. Failures: ").concat(
            joined.as_str(),
        );
        (action_partial("setGroupState", target_name, detail), true)
    } else {
        (action_error("setGroupState", target_name, joined), false)
    }
}

/// The outcome of activating a scene.
pub fn scene_outcome(scene_id: &str, result: Result<(), String>) -> (r: (OllamaActionOutcome, bool))
    ensures
        match result {
            Ok(_) => r.1 && outcome_view(r.0) == outcome(
                "activateScene"@,
                target_label("scene:"@, scene_id@),
                "ok"@,
                "Scene activated."@,
            ),
            Err(e) => !r.1 && outcome_view(r.0) == outcome(
                "activateScene"@,
                target_label("scene:"@, scene_id@),
                "error"@,
                e@,
            ),
        },
{
    match result {
        Ok(_) => (
            action_ok("activateScene", target("scene:", scene_id), String::from_str("Scene activated.")),
            true,
        ),
        Err(e) => (action_error("activateScene", target("scene:", scene_id), e), false),
    }
}

/// The outcome of enabling or disabling an automation.
pub fn automation_outcome(automation_id: &str, enabled: bool, result: Result<(), String>) -> (r: (
    OllamaActionOutcome,
    bool,
))
    ensures
        match result {
            Ok(_) => r.1 && outcome_view(r.0) == outcome(
                "setAutomationEnabled"@,
                target_label("automation:"@, automation_id@),
                "ok"@,
                if enabled {
                    "Automation enabled."@
                } else {
                    "Automation disabled."@
                },
            ),
            Err(e) => !r.1 && outcome_view(r.0) == outcome(
                "setAutomationEnabled"@,
                target_label("automation:"@, automation_id@),
                "error"@,
                e@,
            ),
        },
{
    match result {
        Ok(_) => {
            let detail = if enabled {
                String::from_str("Automation enabled.")
            } else {
                String::from_str("Automation disabled.")
            };
            (action_ok("setAutomationEnabled", target("automation:", automation_id), detail), true)
        },
        Err(e) => (action_error("setAutomationEnabled", target("automation:", automation_id), e), false),
    }
}

/// How starting audio sync ended.
pub enum AudioSyncStartOutcome {
    Started(AudioSyncStartResult),
    Failed(String),
    TimedOut,
}

/// The outcome of starting audio sync, and the connection it left, if it started.
pub fn audio_start_outcome(result: AudioSyncStartOutcome) -> (r: (OllamaActionOutcome, bool, Option<BridgeConnection>))
    ensures
        match result {
            AudioSyncStartOutcome::Started(s) => r.1 && r.2 == Some(s.connection) && outcome_view(r.0)
                == outcome(
                "startAudioSync"@,
                "audio-sync"@,
                "ok"@,
                "Audio sync started for entertainment area "@ + s.entertainment_area_id@ + "."@,
            ),
            AudioSyncStartOutcome::Failed(e) => !r.1 && r.2 is None && outcome_view(r.0) == outcome(
                "startAudioSync"@,
                "audio-sync"@,
                "error"@,
                e@,
            ),
            AudioSyncStartOutcome::TimedOut => !r.1 && r.2 is None && outcome_view(r.0) == outcome(
                "startAudioSync"@,
                "audio-sync"@,
                "error"@,
                "Starting audio sync timed out."@,
            ),
        },
{
    match result {
        AudioSyncStartOutcome::Started(s) => {
            let detail = String::from_str("Audio sync started for entertainment area ").concat(
                s.entertainment_area_id.as_str(),
            ).concat(".");
            (action_ok("startAudioSync", String::from_str("audio-sync"), detail), true, Some(s.connection))
        },
        AudioSyncStartOutcome::Failed(e) => (
            action_error("startAudioSync", String::from_str("audio-sync"), e),
            false,
            None,
        ),
        AudioSyncStartOutcome::TimedOut => (
            action_error(
                "startAudioSync",
                String::from_str("audio-sync"),
                String::from_str("Starting audio sync timed out."),
            ),
            false,
            None,
        ),
    }
}

/// The outcome of stopping audio sync.
pub fn audio_stop_outcome(result: Result<(), String>) -> (r: (OllamaActionOutcome, bool))
    ensures
        match result {
            Ok(_) => r.1 && outcome_view(r.0) == outcome(
                "stopAudioSync"@,
                "audio-sync"@,
                "ok"@,
                "Audio sync stopped."@,
            ),
            Err(e) => !r.1 && outcome_view(r.0) == outcome("stopAudioSync"@, "audio-sync"@, "error"@, e@),
        },
{
    match result {
        Ok(_) => (
            action_ok("stopAudioSync", String::from_str("audio-sync"), String::from_str("Audio sync stopped.")),
            true,
        ),
        Err(e) => (action_error("stopAudioSync", String::from_str("audio-sync"), e), false),
    }
}

/// The outcome of changing the settings of a running audio sync.
pub fn audio_update_outcome(result: Result<(), String>) -> (r: (OllamaActionOutcome, bool))
    ensures
        match result {
            Ok(_) => r.1 && outcome_view(r.0) == outcome(
                "updateAudioSync"@,
                "audio-sync"@,
                "ok"@,
                "Audio sync settings updated."@,
            ),
            Err(e) => !r.1 && outcome_view(r.0) == outcome("updateAudioSync"@, "audio-sync"@, "error"@, e@),
        },
{
    match result {
        Ok(_) => (
            action_ok(
                "updateAudioSync",
                String::from_str("audio-sync"),
                String::from_str("Audio sync settings updated."),
            ),
            true,
        ),
        Err(e) => (action_error("updateAudioSync", String::from_str("audio-sync"), e), false),
    }
}

/// The camelCase type of a planned action, which its outcome carries as its action.
pub open spec fn planned_action_name(a: PlannedAction) -> Seq<char> {
    match a {
        PlannedAction::SetLightState { .. } => "setLightState"@,
        PlannedAction::SetGroupState { .. } => "setGroupState"@,
        PlannedAction::ActivateScene { .. } => "activateScene"@,
        PlannedAction::SetAutomationEnabled { .. } => "setAutomationEnabled"@,
        PlannedAction::StartAudioSync { .. } => "startAudioSync"@,
        PlannedAction::StopAudioSync => "stopAudioSync"@,
        PlannedAction::UpdateAudioSync { .. } => "updateAudioSync"@,
    }
}

/// The type of a planned action.
fn action_name(a: &PlannedAction) -> (r: &'static str)
    ensures
        r@ == planned_action_name(*a),
{
    match a {
        PlannedAction::SetLightState { .. } => "setLightState",
        PlannedAction::SetGroupState { .. } => "setGroupState",
        PlannedAction::ActivateScene { .. } => "activateScene",
        PlannedAction::SetAutomationEnabled { .. } => "setAutomationEnabled",
        PlannedAction::StartAudioSync { .. } => "startAudioSync",
        PlannedAction::StopAudioSync => "stopAudioSync",
        PlannedAction::UpdateAudioSync { .. } => "updateAudioSync",
    }
}

/// The statuses an outcome can have.
pub open spec fn is_outcome_status(status: Seq<char>) -> bool {
    status == "ok"@ || status == "partial"@ || status == "error"@
}

/// Some outcome is not an error: the bridge state changed.
pub open spec fn changed_by(outcomes: Seq<OllamaActionOutcome>) -> bool {
    exists|i: int| 0 <= i < outcomes.len() && (#[trigger] outcomes[i]).status@ != "error"@
}

/// Some outcome is an audio-sync start that succeeded.
pub open spec fn started_audio(outcomes: Seq<OllamaActionOutcome>) -> bool {
    exists|i: int|
        0 <= i < outcomes.len() && (#[trigger] outcomes[i]).action@ == "startAudioSync"@ && outcomes[i].status@
            == "ok"@
}

proof fn lemma_push_outcome(outcomes: Seq<OllamaActionOutcome>, o: OllamaActionOutcome)
    ensures
        changed_by(outcomes.push(o)) == (changed_by(outcomes) || o.status@ != "error"@),
        started_audio(outcomes.push(o)) == (started_audio(outcomes) || (o.action@ == "startAudioSync"@
            && o.status@ == "ok"@)),
{
    let s = outcomes.push(o);
    assert(s[outcomes.len() as int] == o);
    if changed_by(outcomes) {
        let i = choose|i: int| 0 <= i < outcomes.len() && (#[trigger] outcomes[i]).status@ != "error"@;
        assert(s[i] == outcomes[i]);
    }
    if changed_by(s) {
        let i = choose|i: int| 0 <= i < s.len() && (#[trigger] s[i]).status@ != "error"@;
        if i < outcomes.len() {
            assert(s[i] == outcomes[i]);
        }
    }
    if started_audio(outcomes) {
        let i = choose|i: int|
            0 <= i < outcomes.len() && (#[trigger] outcomes[i]).action@ == "startAudioSync"@
                && outcomes[i].status@ == "ok"@;
        assert(s[i] == outcomes[i]);
    }
    if started_audio(s) {
        let i = choose|i: int|
            0 <= i < s.len() && (#[trigger] s[i]).action@ == "startAudioSync"@ && s[i].status@ == "ok"@;
        if i < outcomes.len() {
            assert(s[i] == outcomes[i]);
        }
    }
}

/// The status words differ.
proof fn lemma_status_words()
    ensures
        "ok"@ != "error"@,
        "partial"@ != "error"@,
{
    reveal_strlit("ok");
    reveal_strlit("partial");
    reveal_strlit("error");
    assert("ok"@.len() == 2);
    assert("partial"@.len() == 7);
    assert("error"@.len() == 5);
}

/// A step that a planned action finishes at once is an error outcome of that action's
/// type.
proof fn lemma_finished_step(o: OllamaActionOutcome, snapshot: BridgeSnapshot, connection: BridgeConnection, a: PlannedAction)
    requires
        action_step_matches(ActionStep::Finished(o), snapshot, connection, a),
    ensures
        o.action@ == planned_action_name(a),
        o.status@ == "error"@,
{
}

/// The carrying out of a plan: its actions are taken one at a time; each gives exactly
/// one outcome, recorded in order.
pub struct CommandExecution {
    actions: Vec<OllamaActionOutcome>,
    bridge_state_changed: bool,
    updated_connection: Option<BridgeConnection>,
    active_connection: BridgeConnection,
    remaining: Vec<PlannedAction>,
    awaiting: Option<&'static str>,
    plan: Ghost<Seq<PlannedAction>>,
}

/// The reply to the user: the plan's message, trimmed, with a note when no action ran;
/// a stock message when the plan had none.
pub open spec fn final_message(planned: Seq<char>, no_actions: bool) -> Seq<char> {
    let m = trim_spec(planned);
    if m.len() == 0 {
        if no_actions {
            "No executable actions were returned by Ollama."@
        } else {
            "Executed the requested lighting actions."@
        }
    } else if no_actions {
        m + " (No executable actions were returned.)"@
    } else {
        m
    }
}

impl CommandExecution {
    /// The planned actions.
    pub closed spec fn planned(&self) -> Seq<PlannedAction> {
        self.plan@
    }

    /// The outcomes recorded so far, one per action taken.
    pub closed spec fn recorded(&self) -> Seq<OllamaActionOutcome> {
        self.actions@
    }

    /// The type of the action whose outcome is awaited, if one is.
    pub closed spec fn awaiting_name(&self) -> Option<Seq<char>> {
        match self.awaiting {
            Some(n) => Some(n@),
            None => None,
        }
    }

    /// The connection the actions use.
    pub closed spec fn active(&self) -> BridgeConnection {
        self.active_connection
    }

    /// Whether some outcome so far changed the bridge.
    pub closed spec fn changed(&self) -> bool {
        self.bridge_state_changed
    }

    /// The connection of an audio-sync start, if one succeeded.
    pub closed spec fn updated(&self) -> Option<BridgeConnection> {
        self.updated_connection
    }

    /// The actions still to take and the outcomes recorded agree with the plan: one outcome
    /// per action taken, carrying its type and one of the three statuses; the bridge
    /// changed exactly when some outcome is not an error; there is an updated connection
    /// exactly when an audio-sync start succeeded, and it is the one in use.
    pub closed spec fn wf(&self) -> bool {
        &&& self.actions@.len() + self.remaining@.len() + (if self.awaiting is Some {
            1int
        } else {
            0int
        }) == self.plan@.len()
        &&& self.remaining@ == self.plan@.skip(self.plan@.len() - self.remaining@.len())
        &&& forall|i: int|
            0 <= i < self.actions@.len() ==> (#[trigger] self.actions@[i]).action@ == planned_action_name(
                self.plan@[i],
            ) && is_outcome_status(self.actions@[i].status@)
        &&& self.awaiting matches Some(n) ==> n@ == planned_action_name(self.plan@[self.actions@.len() as int])
        &&& self.bridge_state_changed == changed_by(self.actions@)
        &&& (self.updated_connection is Some <==> started_audio(self.actions@))
        &&& self.updated_connection matches Some(c) ==> c == self.active_connection
    }

    /// Nothing done yet of `actions`, on the connection of the request.
    pub fn new(connection: BridgeConnection, actions: Vec<PlannedAction>) -> (r: Self)
        ensures
            r.wf(),
            r.planned() == actions@,
            r.recorded().len() == 0,
            r.awaiting_name() is None,
            r.active() == connection,
            r.updated() is None,
    {
        let ghost plan = actions@;
        let r = CommandExecution {
            actions: Vec::new(),
            bridge_state_changed: false,
            updated_connection: None,
            active_connection: connection,
            remaining: actions,
            awaiting: None,
            plan: Ghost(plan),
        };
        assert(r.remaining@ == r.plan@.skip(0));
        r
    }

    /// Takes the next planned actions: those that the snapshot refuses are recorded at
    /// once as errors, and the first that needs the bridge or audio sync is handed out as
    /// a step, whose outcome is then awaited; `None` once every action has its outcome.
    pub fn next_step(&mut self, snapshot: &BridgeSnapshot) -> (r: Option<ActionStep>)
        requires
            old(self).wf(),
            old(self).awaiting_name() is None,
        ensures
            final(self).wf(),
            final(self).planned() == old(self).planned(),
            final(self).active() == old(self).active(),
            final(self).updated() == old(self).updated(),
            old(self).recorded().len() <= final(self).recorded().len(),
            final(self).recorded().take(old(self).recorded().len() as int) == old(self).recorded(),
            forall|k: int|
                old(self).recorded().len() <= k < final(self).recorded().len() ==> action_step_matches(
                    ActionStep::Finished(#[trigger] final(self).recorded()[k]),
                    *snapshot,
                    old(self).active(),
                    old(self).planned()[k],
                ),
            r is None ==> final(self).recorded().len() == final(self).planned().len()
                && final(self).awaiting_name() is None,
            r matches Some(step) ==> {
                &&& !(step is Finished)
                &&& final(self).recorded().len() < final(self).planned().len()
                &&& final(self).awaiting_name() == Some(
                    planned_action_name(final(self).planned()[final(self).recorded().len() as int]),
                )
                &&& action_step_matches(
                    step,
                    *snapshot,
                    old(self).active(),
                    final(self).planned()[final(self).recorded().len() as int],
                )
            },
    {
        let ghost start = self.actions@;
        while self.remaining.len() > 0
            invariant
                self.wf(),
                self.awaiting is None,
                self.plan@ == old(self).plan@,
                self.active_connection == old(self).active_connection,
                self.updated_connection == old(self).updated_connection,
                start == old(self).actions@,
                start.len() <= self.actions@.len(),
                self.actions@.take(start.len() as int) == start,
                forall|k: int|
                    start.len() <= k < self.actions@.len() ==> action_step_matches(
                        ActionStep::Finished(#[trigger] self.actions@[k]),
                        *snapshot,
                        self.active_connection,
                        self.plan@[k],
                    ),
            decreases self.remaining.len(),
        {
            let ghost n = self.actions@.len() as int;
            let ghost before = self.actions@;
            let ghost rest = self.remaining@;
            assert(rest[0] == self.plan@[n]);
            let action = self.remaining.remove(0);
            assert(self.remaining@ =~= self.plan@.skip(self.plan@.len() - self.remaining@.len()));
            let name = action_name(&action);
            let ghost planned_action = action;
            let step = plan_action_step(snapshot, &self.active_connection, action);
            match step {
                ActionStep::Finished(o) => {
                    proof {
                        lemma_finished_step(o, *snapshot, self.active_connection, planned_action);
                        lemma_push_outcome(before, o);
                        lemma_status_words();
                    }
                    let not_error = !str_eq(o.status.as_str(), "error");
                    self.actions.push(o);
                    if not_error {
                        self.bridge_state_changed = true;
                    }
                    proof {
                        assert(self.actions@ == before.push(o));
                        assert(self.actions@.take(start.len() as int) =~= start) by {
                            assert(before.take(start.len() as int) == start);
                        }
                        assert forall|k: int|
                            start.len() <= k < self.actions@.len() implies action_step_matches(
                            ActionStep::Finished(#[trigger] self.actions@[k]),
                            *snapshot,
                            self.active_connection,
                            self.plan@[k],
                        ) by {
                            if k < n {
                                assert(self.actions@[k] == before[k]);
                            }
                        }
                        assert forall|i: int| 0 <= i < self.actions@.len() implies (
                        #[trigger] self.actions@[i]).action@ == planned_action_name(self.plan@[i])
                            && is_outcome_status(self.actions@[i].status@) by {
                            if i < n {
                                assert(self.actions@[i] == before[i]);
                            }
                        }
                    }
                },
                other => {
                    self.awaiting = Some(name);
                    return Some(other);
                },
            }
        }
        None
    }

    /// Records the outcome of the awaited step, an action other than an audio-sync start;
    /// the bridge counts as changed when the outcome is not an error.
    pub fn record(&mut self, outcome: OllamaActionOutcome)
        requires
            old(self).wf(),
            old(self).awaiting_name() matches Some(n) && n != "startAudioSync"@ && outcome.action@ == n,
            is_outcome_status(outcome.status@),
        ensures
            final(self).wf(),
            final(self).recorded() == old(self).recorded().push(outcome),
            final(self).awaiting_name() is None,
            final(self).planned() == old(self).planned(),
            final(self).changed() == (old(self).changed() || outcome.status@ != "error"@),
            final(self).updated() == old(self).updated(),
            final(self).active() == old(self).active(),
    {
        proof {
            lemma_push_outcome(self.actions@, outcome);
        }
        let ghost before = self.actions@;
        let not_error = !str_eq(outcome.status.as_str(), "error");
        self.actions.push(outcome);
        if not_error {
            self.bridge_state_changed = true;
        }
        self.awaiting = None;
        proof {
            assert(self.actions@ == before.push(outcome));
            assert forall|i: int| 0 <= i < self.actions@.len() implies (#[trigger] self.actions@[i]).action@
                == planned_action_name(self.plan@[i]) && is_outcome_status(self.actions@[i].status@) by {
                if i < before.len() {
                    assert(self.actions@[i] == before[i]);
                }
            }
        }
    }

    /// Records how the awaited audio-sync start ended: a start that succeeded switches
    /// the later actions and the reply to its connection.
    pub fn record_audio_start(&mut self, result: AudioSyncStartOutcome)
        requires
            old(self).wf(),
            old(self).awaiting_name() == Some("startAudioSync"@),
        ensures
            final(self).wf(),
            final(self).awaiting_name() is None,
            final(self).planned() == old(self).planned(),
            final(self).recorded().len() == old(self).recorded().len() + 1,
            final(self).recorded().drop_last() == old(self).recorded(),
            match result {
                AudioSyncStartOutcome::Started(s) => {
                    &&& outcome_view(final(self).recorded().last()) == outcome(
                        "startAudioSync"@,
                        "audio-sync"@,
                        "ok"@,
                        "Audio sync started for entertainment area "@ + s.entertainment_area_id@ + "."@,
                    )
                    &&& final(self).changed()
                    &&& final(self).updated() == Some(s.connection)
                    &&& final(self).active() == s.connection
                },
                AudioSyncStartOutcome::Failed(e) => {
                    &&& outcome_view(final(self).recorded().last()) == outcome(
                        "startAudioSync"@,
                        "audio-sync"@,
                        "error"@,
                        e@,
                    )
                    &&& final(self).changed() == old(self).changed()
                    &&& final(self).updated() == old(self).updated()
                    &&& final(self).active() == old(self).active()
                },
                AudioSyncStartOutcome::TimedOut => {
                    &&& outcome_view(final(self).recorded().last()) == outcome(
                        "startAudioSync"@,
                        "audio-sync"@,
                        "error"@,
                        "Starting audio sync timed out."@,
                    )
                    &&& final(self).changed() == old(self).changed()
                    &&& final(self).updated() == old(self).updated()
                    &&& final(self).active() == old(self).active()
                },
            },
    {
        let ghost before = self.actions@;
        let (o, changed, connection) = audio_start_outcome(result);
        proof {
            lemma_push_outcome(before, o);
            lemma_status_words();
        }
        self.actions.push(o);
        if changed {
            self.bridge_state_changed = true;
        }
        match connection {
            Some(c) => {
                self.updated_connection = Some(c.duplicate());
                self.active_connection = c;
            },
            None => {},
        }
        self.awaiting = None;
        proof {
            assert(self.actions@ == before.push(o));
            assert(self.actions@.drop_last() =~= before);
            assert forall|i: int| 0 <= i < self.actions@.len() implies (#[trigger] self.actions@[i]).action@
                == planned_action_name(self.plan@[i]) && is_outcome_status(self.actions@[i].status@) by {
                if i < before.len() {
                    assert(self.actions@[i] == before[i]);
                }
            }
        }
    }

    /// The result of the command once every planned action has its outcome, with the
    /// reply composed from the plan's message: one outcome per planned action, in order
    /// and of its type; the bridge changed exactly when some outcome is not an error; an
    /// updated connection exactly when an audio-sync start succeeded.
    pub fn finish(self, planned_message: &str) -> (r: ExecuteOllamaCommandResult)
        requires
            self.wf(),
            self.awaiting_name() is None,
            self.recorded().len() == self.planned().len(),
        ensures
            r.assistant_message@ == final_message(planned_message@, self.planned().len() == 0),
            r.actions@ == self.recorded(),
            r.actions@.len() == self.planned().len(),
            forall|i: int|
                0 <= i < r.actions@.len() ==> (#[trigger] r.actions@[i]).action@ == planned_action_name(
                    self.planned()[i],
                ) && is_outcome_status(r.actions@[i].status@),
            r.bridge_state_changed == changed_by(r.actions@),
            r.updated_connection is Some <==> started_audio(r.actions@),
            r.updated_connection == self.updated(),
    {
        let m = trim(planned_message);
        let none = self.actions.len() == 0;
        let assistant_message = if m.unicode_len() == 0 {
            if none {
                String::from_str("No executable actions were returned by Ollama.")
            } else {
                String::from_str("Executed the requested lighting actions.")
            }
        } else if none {
            owned(m).concat(" (No executable actions were returned.)")
        } else {
            owned(m)
        };
        ExecuteOllamaCommandResult {
            assistant_message,
            actions: self.actions,
            bridge_state_changed: self.bridge_state_changed,
            updated_connection: self.updated_connection,
        }
    }
}

} // verus!
