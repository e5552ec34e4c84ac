//! Turning a parsed JSON reply into a plan: field names in either spelling, action types
//! in any spelling, and each action decoded as the plan format defines it (an action
//! whose fields do not fit is dropped).
use vstd::prelude::*;
use crate::json::{
    JsonMember, JsonNumber, JsonValue, get_member, lemma_member_value_push, lemma_without_key_lookup,
    member_value, remove_key, take_member, without_key,
};
use crate::ollama::models::{PlannedAction, PlannedResponse};
use crate::ollama::rules::{normalize_token, token_spec};
use crate::text::{owned, str_eq, trim, trim_spec};

verus! {

/// Lookup of an object's members by name.
pub type Lookup = spec_fn(Seq<char>) -> Option<JsonValue>;

/// The lookup of a member list.
pub open spec fn lookup_of(members: Seq<JsonMember>) -> Lookup {
    |k: Seq<char>| member_value(members, k)
}

/// The first of `aliases` that the object has.
pub open spec fn first_alias(f: Lookup, aliases: Seq<Seq<char>>) -> Option<Seq<char>>
    decreases aliases.len(),
{
    if aliases.len() == 0 {
        None
    } else if f(aliases[0]) is Some {
        Some(aliases[0])
    } else {
        first_alias(f, aliases.drop_first())
    }
}

/// The object after its member `canonical` is filled in from the first alias present,
/// which is then removed; nothing changes when `canonical` is already there.
pub open spec fn key_normalized(f: Lookup, canonical: Seq<char>, aliases: Seq<Seq<char>>) -> Lookup {
    |k: Seq<char>|
        if f(canonical) is Some {
            f(k)
        } else {
            match first_alias(f, aliases) {
                Some(a) => if k == canonical {
                    f(a)
                } else if k == a {
                    None
                } else {
                    f(k)
                },
                None => f(k),
            }
        }
}

/// Views of a list of string slices.
pub open spec fn str_views(v: Seq<&str>) -> Seq<Seq<char>> {
    v.map_values(|s: &str| s@)
}

/// Fills in `canonical` from the first alias that the object has, removing that alias.
pub fn normalize_action_key(map: &mut Vec<JsonMember>, canonical: &str, aliases: &[&str])
    ensures
        forall|k: Seq<char>|
            member_value(final(map)@, k) == #[trigger] key_normalized(
                lookup_of(old(map)@),
                canonical@,
                str_views(aliases@),
            )(k),
{
    let ghost f = lookup_of(map@);
    let ghost av = str_views(aliases@);
    if get_member(map, canonical).is_some() {
        return;
    }
    let mut j: usize = 0;
    assert(av.skip(0) =~= av);
    while j < aliases.len()
        invariant
            j <= aliases@.len(),
            map@ == old(map)@,
            f == lookup_of(old(map)@),
            av == str_views(aliases@),
            f(canonical@) is None,
            first_alias(f, av) == first_alias(f, av.skip(j as int)),
        decreases aliases.len() - j,
    {
        assert(av.skip(j as int).drop_first() =~= av.skip(j + 1));
        assert(av.skip(j as int)[0] == aliases@[j as int]@);
        let alias = aliases[j];
        let ghost before = map@;
        match take_member(map, alias) {
            Some(value) => {
                let ghost after_take = map@;
                remove_key(map, alias);
                let ghost after_remove = map@;
                let m = JsonMember { key: owned(canonical), value };
                map.push(m);
                proof {
                    assert forall|k: Seq<char>|
                        member_value(map@, k) == #[trigger] key_normalized(f, canonical@, av)(k) by {
                        lemma_without_key_lookup(after_take, alias@, k);
                        lemma_member_value_push(after_remove, m, k);
                        lemma_without_key_lookup(after_take, alias@, canonical@);
                    }
                }
                return;
            },
            None => {},
        }
        j += 1;
    }
    proof {
        assert(av.skip(j as int) =~= Seq::<Seq<char>>::empty());
        assert forall|k: Seq<char>| member_value(map@, k) == #[trigger] key_normalized(f, canonical@, av)(k) by {}
    }
}

/// The object with every field name of the plan format filled in from its camel-case
/// alias.
pub open spec fn action_fields(f: Lookup) -> Lookup {
    let f = key_normalized(f, "group_id"@, seq!["groupId"@]);
    let f = key_normalized(f, "light_id"@, seq!["lightId"@]);
    let f = key_normalized(f, "scene_id"@, seq!["sceneId"@]);
    let f = key_normalized(f, "automation_id"@, seq!["automationId"@]);
    let f = key_normalized(f, "entertainment_area_id"@, seq!["entertainmentAreaId"@]);
    let f = key_normalized(f, "pipewire_target_object"@, seq!["pipewireTargetObject"@]);
    let f = key_normalized(f, "speed_mode"@, seq!["speedMode"@]);
    let f = key_normalized(f, "color_palette"@, seq!["colorPalette"@]);
    let f = key_normalized(f, "base_color_hex"@, seq!["baseColorHex"@]);
    let f = key_normalized(f, "brightness_ceiling"@, seq!["brightnessCeiling"@]);
    key_normalized(f, "transition_time"@, seq!["transitionTime"@])
}

/// The action type that a normalised `type` token names.
pub open spec fn action_type_for_token(t: Seq<char>) -> Option<Seq<char>> {
    if t == "setlightstate"@ {
        Some("setLightState"@)
    } else if t == "setgroupstate"@ {
        Some("setGroupState"@)
    } else if t == "activatescene"@ {
        Some("activateScene"@)
    } else if t == "setautomationenabled"@ {
        Some("setAutomationEnabled"@)
    } else if t == "startaudiosync"@ {
        Some("startAudioSync"@)
    } else if t == "stopaudiosync"@ {
        Some("stopAudioSync"@)
    } else if t == "updateaudiosync"@ {
        Some("updateAudioSync"@)
    } else {
        None
    }
}

/// The action type of an object: its `type` string, trimmed and normalised, when it names
/// one of the seven actions.
pub open spec fn action_type(f: Lookup) -> Option<Seq<char>> {
    let raw = match f("type"@) {
        Some(JsonValue::String(s)) => trim_spec(s@),
        _ => Seq::empty(),
    };
    action_type_for_token(token_spec(raw))
}

/// The action type for a token, as a string.
fn action_type_name(token: &str) -> (r: Option<&'static str>)
    ensures
        match r {
            Some(n) => action_type_for_token(token@) == Some(n@),
            None => action_type_for_token(token@) is None,
        },
{
    proof {
        reveal_strlit("setlightstate");
        reveal_strlit("setgroupstate");
        reveal_strlit("activatescene");
        reveal_strlit("setautomationenabled");
        reveal_strlit("startaudiosync");
        reveal_strlit("stopaudiosync");
        reveal_strlit("updateaudiosync");
    }
    if str_eq(token, "setlightstate") {
        Some("setLightState")
    } else if str_eq(token, "setgroupstate") {
        Some("setGroupState")
    } else if str_eq(token, "activatescene") {
        Some("activateScene")
    } else if str_eq(token, "setautomationenabled") {
        Some("setAutomationEnabled")
    } else if str_eq(token, "startaudiosync") {
        Some("startAudioSync")
    } else if str_eq(token, "stopaudiosync") {
        Some("stopAudioSync")
    } else if str_eq(token, "updateaudiosync") {
        Some("updateAudioSync")
    } else {
        None
    }
}

/// An action object with its field names in the plan format and its `type` in canonical
/// spelling; nothing when the value is no object or names no known action.
pub fn normalize_action_value(value: JsonValue) -> (r: Option<JsonValue>)
    ensures
        match value {
            JsonValue::Object(source) => {
                let f = action_fields(lookup_of(source@));
                match action_type(f) {
                    Some(name) => r matches Some(JsonValue::Object(m)) && (forall|k: Seq<char>|
                        k != "type"@ ==> #[trigger] member_value(m@, k) == f(k)) && (member_value(
                        m@,
                        "type"@,
                    ) matches Some(JsonValue::String(t)) && t@ == name),
                    None => r is None,
                }
            },
            _ => r is None,
        },
{
    let mut map = match value {
        JsonValue::Object(members) => members,
        _ => {
            return None;
        },
    };
    let ghost f0 = lookup_of(map@);
    let aliases: [&str; 1] = ["groupId"];
    normalize_action_key(&mut map, "group_id", &aliases);
    assert(str_views(aliases@) =~= seq!["groupId"@]);
    let ghost f1 = lookup_of(map@);
    let aliases: [&str; 1] = ["lightId"];
    normalize_action_key(&mut map, "light_id", &aliases);
    assert(str_views(aliases@) =~= seq!["lightId"@]);
    let ghost f2 = lookup_of(map@);
    let aliases: [&str; 1] = ["sceneId"];
    normalize_action_key(&mut map, "scene_id", &aliases);
    assert(str_views(aliases@) =~= seq!["sceneId"@]);
    let ghost f3 = lookup_of(map@);
    let aliases: [&str; 1] = ["automationId"];
    normalize_action_key(&mut map, "automation_id", &aliases);
    assert(str_views(aliases@) =~= seq!["automationId"@]);
    let ghost f4 = lookup_of(map@);
    let aliases: [&str; 1] = ["entertainmentAreaId"];
    normalize_action_key(&mut map, "entertainment_area_id", &aliases);
    assert(str_views(aliases@) =~= seq!["entertainmentAreaId"@]);
    let ghost f5 = lookup_of(map@);
    let aliases: [&str; 1] = ["pipewireTargetObject"];
    normalize_action_key(&mut map, "pipewire_target_object", &aliases);
    assert(str_views(aliases@) =~= seq!["pipewireTargetObject"@]);
    let ghost f6 = lookup_of(map@);
    let aliases: [&str; 1] = ["speedMode"];
    normalize_action_key(&mut map, "speed_mode", &aliases);
    assert(str_views(aliases@) =~= seq!["speedMode"@]);
    let ghost f7 = lookup_of(map@);
    let aliases: [&str; 1] = ["colorPalette"];
    normalize_action_key(&mut map, "color_palette", &aliases);
    assert(str_views(aliases@) =~= seq!["colorPalette"@]);
    let ghost f8 = lookup_of(map@);
    let aliases: [&str; 1] = ["baseColorHex"];
    normalize_action_key(&mut map, "base_color_hex", &aliases);
    assert(str_views(aliases@) =~= seq!["baseColorHex"@]);
    let ghost f9 = lookup_of(map@);
    let aliases: [&str; 1] = ["brightnessCeiling"];
    normalize_action_key(&mut map, "brightness_ceiling", &aliases);
    assert(str_views(aliases@) =~= seq!["brightnessCeiling"@]);
    let ghost f10 = lookup_of(map@);
    let aliases: [&str; 1] = ["transitionTime"];
    normalize_action_key(&mut map, "transition_time", &aliases);
    assert(str_views(aliases@) =~= seq!["transitionTime"@]);
    let ghost f11 = lookup_of(map@);
    proof {
        assert(f1 =~= key_normalized(f0, "group_id"@, seq!["groupId"@]));
        assert(f2 =~= key_normalized(f1, "light_id"@, seq!["lightId"@]));
        assert(f3 =~= key_normalized(f2, "scene_id"@, seq!["sceneId"@]));
        assert(f4 =~= key_normalized(f3, "automation_id"@, seq!["automationId"@]));
        assert(f5 =~= key_normalized(f4, "entertainment_area_id"@, seq!["entertainmentAreaId"@]));
        assert(f6 =~= key_normalized(f5, "pipewire_target_object"@, seq!["pipewireTargetObject"@]));
        assert(f7 =~= key_normalized(f6, "speed_mode"@, seq!["speedMode"@]));
        assert(f8 =~= key_normalized(f7, "color_palette"@, seq!["colorPalette"@]));
        assert(f9 =~= key_normalized(f8, "base_color_hex"@, seq!["baseColorHex"@]));
        assert(f10 =~= key_normalized(f9, "brightness_ceiling"@, seq!["brightnessCeiling"@]));
        assert(f11 =~= key_normalized(f10, "transition_time"@, seq!["transitionTime"@]));
        assert(f11 =~= action_fields(f0));
    }
    let raw_type = match get_member(&map, "type") {
        Some(JsonValue::String(s)) => trim(s.as_str()),
        _ => "",
    };
    proof {
        reveal_strlit("");
    }
    let token = normalize_token(raw_type);
    let name = match action_type_name(token.as_str()) {
        Some(n) => n,
        None => {
            return None;
        },
    };
    let ghost before = map@;
    remove_key(&mut map, "type");
    let ghost removed = map@;
    let m = JsonMember { key: String::from_str("type"), value: JsonValue::String(String::from_str(name)) };
    map.push(m);
    proof {
        assert forall|k: Seq<char>| k != "type"@ implies #[trigger] member_value(map@, k) == f11(k) by {
            lemma_without_key_lookup(before, "type"@, k);
            lemma_member_value_push(removed, m, k);
        }
        lemma_without_key_lookup(before, "type"@, "type"@);
        lemma_member_value_push(removed, m, "type"@);
    }
    Some(JsonValue::Object(map))
}

/// A required string field.
pub open spec fn req_string(f: Lookup, k: Seq<char>) -> Option<String> {
    match f(k) {
        Some(JsonValue::String(s)) => Some(s),
        _ => None,
    }
}

/// A required boolean field.
pub open spec fn req_bool(f: Lookup, k: Seq<char>) -> Option<bool> {
    match f(k) {
        Some(JsonValue::Bool(b)) => Some(b),
        _ => None,
    }
}

/// An optional string field: absent or `null` is `Some(None)`, a string is kept, anything
/// else does not fit (`None`).
pub open spec fn opt_string(f: Lookup, k: Seq<char>) -> Option<Option<String>> {
    match f(k) {
        None => Some(None),
        Some(JsonValue::Null) => Some(None),
        Some(JsonValue::String(s)) => Some(Some(s)),
        _ => None,
    }
}

/// An optional boolean field.
pub open spec fn opt_bool(f: Lookup, k: Seq<char>) -> Option<Option<bool>> {
    match f(k) {
        None => Some(None),
        Some(JsonValue::Null) => Some(None),
        Some(JsonValue::Bool(b)) => Some(Some(b)),
        _ => None,
    }
}

/// An optional unsigned integer field no larger than `max`.
pub open spec fn opt_uint(f: Lookup, k: Seq<char>, max: nat) -> Option<Option<nat>> {
    match f(k) {
        None => Some(None),
        Some(JsonValue::Null) => Some(None),
        Some(JsonValue::Number(JsonNumber::Unsigned(u))) => if u <= max {
            Some(Some(u as nat))
        } else {
            None
        },
        _ => None,
    }
}

pub open spec fn as_u16(o: Option<nat>) -> Option<u16> {
    match o {
        Some(v) => Some(v as u16),
        None => None,
    }
}

pub open spec fn as_u32(o: Option<nat>) -> Option<u32> {
    match o {
        Some(v) => Some(v as u32),
        None => None,
    }
}

/// The action of type `name` read from the fields of an object; `None` when a required
/// field is missing or a field does not fit its type.
pub open spec fn decode_action(f: Lookup, name: Seq<char>) -> Option<PlannedAction> {
    if name == "setLightState"@ || name == "setGroupState"@ {
        let id = if name == "setLightState"@ {
            req_string(f, "light_id"@)
        } else {
            req_string(f, "group_id"@)
        };
        let on = opt_bool(f, "on"@);
        let b = opt_uint(f, "brightness"@, 65535);
        let s = opt_uint(f, "saturation"@, 65535);
        let h = opt_uint(f, "hue"@, 4294967295);
        let t = opt_uint(f, "transition_time"@, 65535);
        if id is Some && on is Some && b is Some && s is Some && h is Some && t is Some {
            if name == "setLightState"@ {
                Some(
                    PlannedAction::SetLightState {
                        light_id: id->0,
                        on: on->0,
                        brightness: as_u16(b->0),
                        saturation: as_u16(s->0),
                        hue: as_u32(h->0),
                        transition_time: as_u16(t->0),
                    },
                )
            } else {
                Some(
                    PlannedAction::SetGroupState {
                        group_id: id->0,
                        on: on->0,
                        brightness: as_u16(b->0),
                        saturation: as_u16(s->0),
                        hue: as_u32(h->0),
                        transition_time: as_u16(t->0),
                    },
                )
            }
        } else {
            None
        }
    } else if name == "activateScene"@ {
        let id = req_string(f, "scene_id"@);
        let group = opt_string(f, "group_id"@);
        if id is Some && group is Some {
            Some(PlannedAction::ActivateScene { scene_id: id->0, group_id: group->0 })
        } else {
            None
        }
    } else if name == "setAutomationEnabled"@ {
        let id = req_string(f, "automation_id"@);
        let enabled = req_bool(f, "enabled"@);
        if id is Some && enabled is Some {
            Some(PlannedAction::SetAutomationEnabled { automation_id: id->0, enabled: enabled->0 })
        } else {
            None
        }
    } else if name == "startAudioSync"@ || name == "updateAudioSync"@ {
        let area = opt_string(f, "entertainment_area_id"@);
        let target = opt_string(f, "pipewire_target_object"@);
        let speed = opt_string(f, "speed_mode"@);
        let palette = opt_string(f, "color_palette"@);
        let hex = opt_string(f, "base_color_hex"@);
        let ceiling = opt_uint(f, "brightness_ceiling"@, 65535);
        if name == "startAudioSync"@ {
            if area is Some && target is Some && speed is Some && palette is Some && hex is Some
                && ceiling is Some {
                Some(
                    PlannedAction::StartAudioSync {
                        entertainment_area_id: area->0,
                        pipewire_target_object: target->0,
                        speed_mode: speed->0,
                        color_palette: palette->0,
                        base_color_hex: hex->0,
                        brightness_ceiling: as_u16(ceiling->0),
                    },
                )
            } else {
                None
            }
        } else if speed is Some && palette is Some && hex is Some && ceiling is Some {
            Some(
                PlannedAction::UpdateAudioSync {
                    speed_mode: speed->0,
                    color_palette: palette->0,
                    base_color_hex: hex->0,
                    brightness_ceiling: as_u16(ceiling->0),
                },
            )
        } else {
            None
        }
    } else if name == "stopAudioSync"@ {
        Some(PlannedAction::StopAudioSync)
    } else {
        None
    }
}

fn field_req_string(m: &Vec<JsonMember>, key: &str) -> (r: Option<String>)
    ensures
        r == req_string(lookup_of(m@), key@),
{
    match get_member(m, key) {
        Some(JsonValue::String(s)) => Some(s.clone()),
        _ => None,
    }
}

fn field_req_bool(m: &Vec<JsonMember>, key: &str) -> (r: Option<bool>)
    ensures
        r == req_bool(lookup_of(m@), key@),
{
    match get_member(m, key) {
        Some(JsonValue::Bool(b)) => Some(*b),
        _ => None,
    }
}

fn field_opt_string(m: &Vec<JsonMember>, key: &str) -> (r: Option<Option<String>>)
    ensures
        r == opt_string(lookup_of(m@), key@),
{
    match get_member(m, key) {
        None => Some(None),
        Some(JsonValue::Null) => Some(None),
        Some(JsonValue::String(s)) => Some(Some(s.clone())),
        _ => None,
    }
}

fn field_opt_bool(m: &Vec<JsonMember>, key: &str) -> (r: Option<Option<bool>>)
    ensures
        r == opt_bool(lookup_of(m@), key@),
{
    match get_member(m, key) {
        None => Some(None),
        Some(JsonValue::Null) => Some(None),
        Some(JsonValue::Bool(b)) => Some(Some(*b)),
        _ => None,
    }
}

fn field_opt_uint(m: &Vec<JsonMember>, key: &str, max: u64) -> (r: Option<Option<u64>>)
    ensures
        match opt_uint(lookup_of(m@), key@, max as nat) {
            Some(Some(v)) => r == Some(Some(v as u64)),
            Some(None) => r == Some(None::<u64>),
            None => r is None,
        },
{
    match get_member(m, key) {
        None => Some(None),
        Some(JsonValue::Null) => Some(None),
        Some(JsonValue::Number(JsonNumber::Unsigned(u))) => if *u <= max {
            Some(Some(*u))
        } else {
            None
        },
        _ => None,
    }
}

fn narrow_u16(o: Option<u64>) -> (r: Option<u16>)
    requires
        o matches Some(v) ==> v <= 65535,
    ensures
        r == as_u16(match o {
            Some(v) => Some(v as nat),
            None => None,
        }),
{
    match o {
        Some(v) => Some(v as u16),
        None => None,
    }
}

fn narrow_u32(o: Option<u64>) -> (r: Option<u32>)
    requires
        o matches Some(v) ==> v <= 4294967295,
    ensures
        r == as_u32(match o {
            Some(v) => Some(v as nat),
            None => None,
        }),
{
    match o {
        Some(v) => Some(v as u32),
        None => None,
    }
}

/// The `type` string of an object.
pub open spec fn type_string(f: Lookup) -> Option<Seq<char>> {
    match f("type"@) {
        Some(JsonValue::String(s)) => Some(s@),
        _ => None,
    }
}

/// A light or group action read from an object takes its fields from the members of the
/// same names: the light action is read only for type `setLightState` and carries the
/// `light_id` string, the group action only for `setGroupState` and carries `group_id`;
/// each carries `on` as its power, `brightness` as its brightness, `saturation` as its
/// saturation, `hue` as its hue and `transition_time` as its transition, a member that is
/// absent or `null` leaving the field unset.
pub proof fn lemma_decoded_state_fields(m: Seq<JsonMember>, name: Seq<char>)
    ensures
        decode_action(lookup_of(m), name) matches Some(
            PlannedAction::SetLightState { light_id, on, brightness, saturation, hue, transition_time },
        ) ==> {
            &&& name == "setLightState"@
            &&& member_value(m, "light_id"@) == Some(JsonValue::String(light_id))
                &&& member_value(m, "on"@) matches Some(JsonValue::Bool(x)) ==> on == Some(x)
                &&& (member_value(m, "on"@) is None || member_value(m, "on"@) == Some(JsonValue::Null)) ==> on is None
                &&& member_value(m, "brightness"@) matches Some(JsonValue::Number(JsonNumber::Unsigned(u)))
                    ==> brightness == Some(u as u16)
                &&& (member_value(m, "brightness"@) is None || member_value(m, "brightness"@) == Some(
                    JsonValue::Null,
                )) ==> brightness is None
                &&& member_value(m, "saturation"@) matches Some(JsonValue::Number(JsonNumber::Unsigned(u)))
                    ==> saturation == Some(u as u16)
                &&& (member_value(m, "saturation"@) is None || member_value(m, "saturation"@) == Some(
                    JsonValue::Null,
                )) ==> saturation is None
                &&& member_value(m, "hue"@) matches Some(JsonValue::Number(JsonNumber::Unsigned(u))) ==> hue
                    == Some(u as u32)
                &&& (member_value(m, "hue"@) is None || member_value(m, "hue"@) == Some(JsonValue::Null))
                    ==> hue is None
                &&& member_value(m, "transition_time"@) matches Some(JsonValue::Number(JsonNumber::Unsigned(u)))
                    ==> transition_time == Some(u as u16)
                &&& (member_value(m, "transition_time"@) is None || member_value(m, "transition_time"@)
                    == Some(JsonValue::Null)) ==> transition_time is None
        },
        decode_action(lookup_of(m), name) matches Some(
            PlannedAction::SetGroupState { group_id, on, brightness, saturation, hue, transition_time },
        ) ==> {
            &&& name == "setGroupState"@
            &&& member_value(m, "group_id"@) == Some(JsonValue::String(group_id))
                &&& member_value(m, "on"@) matches Some(JsonValue::Bool(x)) ==> on == Some(x)
                &&& (member_value(m, "on"@) is None || member_value(m, "on"@) == Some(JsonValue::Null)) ==> on is None
                &&& member_value(m, "brightness"@) matches Some(JsonValue::Number(JsonNumber::Unsigned(u)))
                    ==> brightness == Some(u as u16)
                &&& (member_value(m, "brightness"@) is None || member_value(m, "brightness"@) == Some(
                    JsonValue::Null,
                )) ==> brightness is None
                &&& member_value(m, "saturation"@) matches Some(JsonValue::Number(JsonNumber::Unsigned(u)))
                    ==> saturation == Some(u as u16)
                &&& (member_value(m, "saturation"@) is None || member_value(m, "saturation"@) == Some(
                    JsonValue::Null,
                )) ==> saturation is None
                &&& member_value(m, "hue"@) matches Some(JsonValue::Number(JsonNumber::Unsigned(u))) ==> hue
                    == Some(u as u32)
                &&& (member_value(m, "hue"@) is None || member_value(m, "hue"@) == Some(JsonValue::Null))
                    ==> hue is None
                &&& member_value(m, "transition_time"@) matches Some(JsonValue::Number(JsonNumber::Unsigned(u)))
                    ==> transition_time == Some(u as u16)
                &&& (member_value(m, "transition_time"@) is None || member_value(m, "transition_time"@)
                    == Some(JsonValue::Null)) ==> transition_time is None
        },
{
    reveal_strlit("setLightState");
    reveal_strlit("setGroupState");
}

/// The action that an object in plan format describes (`serde` decoding of the action
/// enum, tagged by `type`).
pub fn planned_action_from_members(m: &Vec<JsonMember>) -> (r: Option<PlannedAction>)
    ensures
        r == (match type_string(lookup_of(m@)) {
            Some(name) => decode_action(lookup_of(m@), name),
            None => None,
        }),
{
    let name = match get_member(m, "type") {
        Some(JsonValue::String(s)) => s.as_str(),
        _ => {
            return None;
        },
    };
    proof {
        reveal_strlit("setLightState");
        reveal_strlit("setGroupState");
        reveal_strlit("activateScene");
        reveal_strlit("setAutomationEnabled");
        reveal_strlit("startAudioSync");
        reveal_strlit("stopAudioSync");
        reveal_strlit("updateAudioSync");
    }
    let light = str_eq(name, "setLightState");
    if light || str_eq(name, "setGroupState") {
        let id = if light {
            field_req_string(m, "light_id")
        } else {
            field_req_string(m, "group_id")
        };
        let on = field_opt_bool(m, "on");
        let b = field_opt_uint(m, "brightness", 65535);
        let s = field_opt_uint(m, "saturation", 65535);
        let h = field_opt_uint(m, "hue", 4294967295);
        let t = field_opt_uint(m, "transition_time", 65535);
        match (id, on, b, s, h, t) {
            (Some(id), Some(on), Some(b), Some(s), Some(h), Some(t)) => {
                let brightness = narrow_u16(b);
                let saturation = narrow_u16(s);
                let hue = narrow_u32(h);
                let transition_time = narrow_u16(t);
                if light {
                    Some(PlannedAction::SetLightState { light_id: id, on, brightness, saturation, hue, transition_time })
                } else {
                    Some(PlannedAction::SetGroupState { group_id: id, on, brightness, saturation, hue, transition_time })
                }
            },
            _ => None,
        }
    } else if str_eq(name, "activateScene") {
        match (field_req_string(m, "scene_id"), field_opt_string(m, "group_id")) {
            (Some(scene_id), Some(group_id)) => Some(PlannedAction::ActivateScene { scene_id, group_id }),
            _ => None,
        }
    } else if str_eq(name, "setAutomationEnabled") {
        match (field_req_string(m, "automation_id"), field_req_bool(m, "enabled")) {
            (Some(automation_id), Some(enabled)) => Some(
                PlannedAction::SetAutomationEnabled { automation_id, enabled },
            ),
            _ => None,
        }
    } else if str_eq(name, "startAudioSync") || str_eq(name, "updateAudioSync") {
        let start = str_eq(name, "startAudioSync");
        let area = field_opt_string(m, "entertainment_area_id");
        let target = field_opt_string(m, "pipewire_target_object");
        let speed = field_opt_string(m, "speed_mode");
        let palette = field_opt_string(m, "color_palette");
        let hex = field_opt_string(m, "base_color_hex");
        let ceiling = field_opt_uint(m, "brightness_ceiling", 65535);
        if start {
            match (area, target, speed, palette, hex, ceiling) {
                (Some(area), Some(target), Some(speed), Some(palette), Some(hex), Some(ceiling)) => Some(
                    PlannedAction::StartAudioSync {
                        entertainment_area_id: area,
                        pipewire_target_object: target,
                        speed_mode: speed,
                        color_palette: palette,
                        base_color_hex: hex,
                        brightness_ceiling: narrow_u16(ceiling),
                    },
                ),
                _ => None,
            }
        } else {
            match (speed, palette, hex, ceiling) {
                (Some(speed), Some(palette), Some(hex), Some(ceiling)) => Some(
                    PlannedAction::UpdateAudioSync {
                        speed_mode: speed,
                        color_palette: palette,
                        base_color_hex: hex,
                        brightness_ceiling: narrow_u16(ceiling),
                    },
                ),
                _ => None,
            }
        }
    } else if str_eq(name, "stopAudioSync") {
        Some(PlannedAction::StopAudioSync)
    } else {
        None
    }
}

/// Decoding reads no `type` member, so two objects that agree elsewhere decode alike.
proof fn lemma_decode_action_ignores_type(f: Lookup, g: Lookup, name: Seq<char>)
    requires
        forall|k: Seq<char>| k != "type"@ ==> #[trigger] f(k) == g(k),
    ensures
        decode_action(f, name) == decode_action(g, name),
{
    reveal_strlit("type");
    reveal_strlit("light_id");
    reveal_strlit("group_id");
    reveal_strlit("on");
    reveal_strlit("brightness");
    reveal_strlit("saturation");
    reveal_strlit("hue");
    reveal_strlit("transition_time");
    reveal_strlit("scene_id");
    reveal_strlit("automation_id");
    reveal_strlit("enabled");
    reveal_strlit("entertainment_area_id");
    reveal_strlit("pipewire_target_object");
    reveal_strlit("speed_mode");
    reveal_strlit("color_palette");
    reveal_strlit("base_color_hex");
    reveal_strlit("brightness_ceiling");
    assert("light_id"@.len() != "type"@.len());
    assert("group_id"@.len() != "type"@.len());
    assert(f("light_id"@) == g("light_id"@));
    assert(f("group_id"@) == g("group_id"@));
    assert(f("on"@) == g("on"@));
    assert(f("brightness"@) == g("brightness"@));
    assert(f("saturation"@) == g("saturation"@));
    assert(f("hue"@) == g("hue"@));
    assert(f("transition_time"@) == g("transition_time"@));
    assert(f("scene_id"@) == g("scene_id"@));
    assert(f("automation_id"@) == g("automation_id"@));
    assert(f("enabled"@) == g("enabled"@));
    assert(f("entertainment_area_id"@) == g("entertainment_area_id"@));
    assert(f("pipewire_target_object"@) == g("pipewire_target_object"@));
    assert(f("speed_mode"@) == g("speed_mode"@));
    assert(f("color_palette"@) == g("color_palette"@));
    assert(f("base_color_hex"@) == g("base_color_hex"@));
    assert(f("brightness_ceiling"@) == g("brightness_ceiling"@));
}

/// The action that one planned item describes, if it is an object of a known type whose
/// fields fit.
pub open spec fn action_of(item: JsonValue) -> Option<PlannedAction> {
    match item {
        JsonValue::Object(members) => {
            let f = action_fields(lookup_of(members@));
            match action_type(f) {
                Some(name) => decode_action(f, name),
                None => None,
            }
        },
        _ => None,
    }
}

/// The actions of a list of items, dropping those that describe none.
pub open spec fn decoded_actions(items: Seq<JsonValue>) -> Seq<PlannedAction>
    decreases items.len(),
{
    if items.len() == 0 {
        Seq::empty()
    } else {
        let rest = decoded_actions(items.drop_last());
        match action_of(items.last()) {
            Some(a) => rest.push(a),
            None => rest,
        }
    }
}

/// The action of one item.
fn decode_item(item: JsonValue) -> (r: Option<PlannedAction>)
    ensures
        r == action_of(item),
{
    let ghost initial = item;
    match normalize_action_value(item) {
        Some(JsonValue::Object(m)) => {
            let r = planned_action_from_members(&m);
            proof {
                if let JsonValue::Object(source) = initial {
                    let f = action_fields(lookup_of(source@));
                    lemma_decode_action_ignores_type(lookup_of(m@), f, action_type(f)->0);
                }
            }
            r
        },
        _ => None,
    }
}

/// Decodes every item of a list.
fn decode_items(items: Vec<JsonValue>) -> (r: Vec<PlannedAction>)
    ensures
        r@ == decoded_actions(items@),
{
    let ghost source = items@;
    let mut items = items;
    let mut out: Vec<PlannedAction> = Vec::new();
    assert(source.skip(0) =~= source);
    while items.len() > 0
        invariant
            items@.len() <= source.len(),
            items@ == source.skip(source.len() - items@.len()),
            out@ == decoded_actions(source.take(source.len() - items@.len())),
        decreases items.len(),
    {
        let ghost j = source.len() - items@.len();
        let item = items.remove(0);
        assert(source.take(j + 1).drop_last() =~= source.take(j));
        assert(source.take(j + 1).last() == item);
        assert(items@ =~= source.skip(j + 1));
        match decode_item(item) {
            Some(a) => out.push(a),
            None => {},
        }
    }
    assert(source.take(source.len() as int) =~= source);
    out
}

/// The member that carries the reply text: `assistantMessage`, else `assistant_message`,
/// else `message`.
pub open spec fn message_member(f: Lookup) -> Option<JsonValue> {
    if f("assistantMessage"@) is Some {
        f("assistantMessage"@)
    } else if f("assistant_message"@) is Some {
        f("assistant_message"@)
    } else {
        f("message"@)
    }
}

/// The reply text of a plan object, trimmed; empty when it is missing or not a string.
pub open spec fn plan_message(f: Lookup) -> Seq<char> {
    match message_member(f) {
        Some(JsonValue::String(s)) => trim_spec(s@),
        _ => Seq::empty(),
    }
}

/// The actions of a plan object: those of `actions` (a list, or a single object), else
/// the single `action` when `actions` gives none.
pub open spec fn plan_actions(f: Lookup) -> Seq<PlannedAction> {
    let primary = match f("actions"@) {
        Some(JsonValue::Array(items)) => decoded_actions(items@),
        Some(v) => if v is Object {
            decoded_actions(seq![v])
        } else {
            Seq::empty()
        },
        None => Seq::empty(),
    };
    if primary.len() > 0 {
        primary
    } else {
        match f("action"@) {
            Some(v) => decoded_actions(seq![v]),
            None => Seq::empty(),
        }
    }
}

/// The reply text and actions that a parsed reply yields, when it is an object with a
/// reply text or at least one action.
pub open spec fn value_plan(value: JsonValue) -> Option<(Seq<char>, Seq<PlannedAction>)> {
    match value {
        JsonValue::Object(members) => {
            let f = lookup_of(members@);
            if plan_message(f).len() == 0 && plan_actions(f).len() == 0 {
                None
            } else {
                Some((plan_message(f), plan_actions(f)))
            }
        },
        _ => None,
    }
}

/// Reads a plan from a parsed reply that is not in the exact plan format.
pub fn parse_planned_response_value(value: JsonValue) -> (r: Result<PlannedResponse, String>)
    ensures
        match value {
            JsonValue::Object(members) => {
                let f = lookup_of(members@);
                if plan_message(f).len() == 0 && plan_actions(f).len() == 0 {
                    r matches Err(e) && e@ == "No assistant message or executable actions were found"@
                } else {
                    r matches Ok(p) && p.assistant_message@ == plan_message(f) && p.actions@
                        == plan_actions(f)
                }
            },
            _ => r matches Err(e) && e@ == "Expected planning response object"@,
        },
{
    let mut members = match value {
        JsonValue::Object(members) => members,
        _ => {
            return Err(String::from_str("Expected planning response object"));
        },
    };
    let ghost f = lookup_of(members@);
    let chosen = match get_member(&members, "assistantMessage") {
        Some(v) => Some(v),
        None => match get_member(&members, "assistant_message") {
            Some(v) => Some(v),
            None => get_member(&members, "message"),
        },
    };
    let assistant_message = match chosen {
        Some(JsonValue::String(s)) => owned(trim(s.as_str())),
        _ => String::new(),
    };
    proof {
        reveal_strlit("actions");
        reveal_strlit("action");
    }
    let primary = match take_member(&mut members, "actions") {
        Some(JsonValue::Array(items)) => decode_items(items),
        Some(v) => {
            if matches!(v, JsonValue::Object(_)) {
                let mut one: Vec<JsonValue> = Vec::new();
                one.push(v);
                decode_items(one)
            } else {
                Vec::new()
            }
        },
        None => Vec::new(),
    };
    let actions = if primary.len() > 0 {
        primary
    } else {
        assert("action"@.len() != "actions"@.len());
        assert(member_value(members@, "action"@) == f("action"@));
        match take_member(&mut members, "action") {
            Some(v) => {
                let mut one: Vec<JsonValue> = Vec::new();
                one.push(v);
                decode_items(one)
            },
            None => Vec::new(),
        }
    };
    if assistant_message.unicode_len() == 0 && actions.len() == 0 {
        return Err(String::from_str("No assistant message or executable actions were found"));
    }
    Ok(PlannedResponse { assistant_message, actions })
}

} // verus!
