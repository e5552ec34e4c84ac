//! The light bookkeeping around an audio sync session: which lights are captured before
//! streaming starts, the state each is restored to, and how failures of stopping and
//! restoring are reported.
use vstd::prelude::*;
use crate::hue::error::{HueError, hue_error_message};
use crate::hue::models::{BridgeConnection, EntertainmentArea, Light, LightStateUpdate, PipeWireOutputTarget};
use crate::hue::order::{lemma_name_then_id_asym, name_then_id_before, name_then_id_precedes};
use crate::sorting::{Precedence, sort_by_order, sorted_by, stably_rearranged};
use crate::string_ops::views;
use crate::text::str_eq;

verus! {

/// The state a light returns to when streaming ends: a light that was on gets its power,
/// brightness, saturation and hue back; any other light is switched off.
pub open spec fn restore_state_spec(light: Light) -> LightStateUpdate {
    if light.is_on == Some(true) {
        LightStateUpdate {
            on: Some(true),
            brightness: light.brightness,
            saturation: light.saturation,
            hue: light.hue,
            transition_time: Some(4),
        }
    } else {
        LightStateUpdate {
            on: Some(false),
            brightness: None,
            saturation: None,
            hue: None,
            transition_time: Some(4),
        }
    }
}

/// The state a light is restored to.
pub fn restore_state_from_light(light: &Light) -> (r: LightStateUpdate)
    ensures
        r == restore_state_spec(*light),
{
    let is_on = match light.is_on {
        Some(on) => on,
        None => false,
    };
    if is_on {
        LightStateUpdate {
            on: Some(true),
            brightness: light.brightness,
            saturation: light.saturation,
            hue: light.hue,
            transition_time: Some(4),
        }
    } else {
        LightStateUpdate { on: Some(false), brightness: None, saturation: None, hue: None, transition_time: Some(4) }
    }
}

/// A light to restore and the state it gets.
#[derive(Clone, Debug, PartialEq, Eq)]
pub struct LightRestoreState {
    pub light_id: String,
    pub state: LightStateUpdate,
}

/// Whether the lights must be listed before streaming: only when the area has lights.
pub fn snapshot_needs_lights(area: &EntertainmentArea) -> (r: bool)
    ensures
        r == (area.light_ids@.len() > 0),
{
    area.light_ids.len() > 0
}

/// The restore entries for the lights of an area, in the order the bridge lists lights.
pub open spec fn restore_entries(lights: Seq<Light>, area_ids: Seq<Seq<char>>) -> Seq<(Seq<char>, LightStateUpdate)>
    decreases lights.len(),
{
    if lights.len() == 0 {
        Seq::empty()
    } else {
        let rest = restore_entries(lights.drop_last(), area_ids);
        if area_ids.contains(lights.last().id@) {
            rest.push((lights.last().id@, restore_state_spec(lights.last())))
        } else {
            rest
        }
    }
}

pub open spec fn entry_view(e: LightRestoreState) -> (Seq<char>, LightStateUpdate) {
    (e.light_id@, e.state)
}

fn holds_id(ids: &Vec<String>, id: &str) -> (r: bool)
    ensures
        r == views(ids@).contains(id@),
{
    let mut i: usize = 0;
    while i < ids.len()
        invariant
            i <= ids@.len(),
            forall|k: int| 0 <= k < i ==> views(ids@)[k] != id@,
        decreases ids.len() - i,
    {
        if str_eq(ids[i].as_str(), id) {
            assert(views(ids@)[i as int] == id@);
            return true;
        }
        i += 1;
    }
    false
}

/// The lights of the area as they are now, to restore once streaming ends.
pub fn restore_snapshot_of(lights: &Vec<Light>, area: &EntertainmentArea) -> (r: Vec<LightRestoreState>)
    ensures
        r@.map_values(|e: LightRestoreState| entry_view(e)) == restore_entries(lights@, views(area.light_ids@)),
{
    let mut out: Vec<LightRestoreState> = Vec::new();
    let mut i: usize = 0;
    while i < lights.len()
        invariant
            i <= lights@.len(),
            out@.map_values(|e: LightRestoreState| entry_view(e)) == restore_entries(
                lights@.take(i as int),
                views(area.light_ids@),
            ),
        decreases lights.len() - i,
    {
        assert(lights@.take(i + 1).drop_last() =~= lights@.take(i as int));
        if holds_id(&area.light_ids, lights[i].id.as_str()) {
            let entry = LightRestoreState { light_id: lights[i].id.clone(), state: restore_state_from_light(&lights[i]) };
            let ghost before = out@;
            out.push(entry);
            assert(out@.map_values(|e: LightRestoreState| entry_view(e)) =~= before.map_values(
                |e: LightRestoreState| entry_view(e),
            ).push(entry_view(entry)));
        }
        i += 1;
    }
    assert(lights@.take(lights@.len() as int) =~= lights@);
    out
}

/// The first error among the results, in order.
pub open spec fn first_error<E>(results: Seq<Result<(), E>>) -> Option<E>
    decreases results.len(),
{
    if results.len() == 0 {
        None
    } else {
        match results[0] {
            Err(e) => Some(e),
            Ok(_) => first_error(results.drop_first()),
        }
    }
}

/// Every light is restored even when some fail; the first failure is reported.
pub fn restore_result(results: Vec<Result<(), HueError>>) -> (r: Result<(), HueError>)
    ensures
        match first_error(results@) {
            Some(e) => r == Err::<(), HueError>(e),
            None => r is Ok,
        },
{
    let ghost all = results@;
    let mut rest = results;
    assert(all.skip(0) =~= all);
    while rest.len() > 0
        invariant
            all == results@,
            rest@.len() <= all.len(),
            rest@ == all.skip(all.len() - rest@.len()),
            first_error(all) == first_error(rest@),
        decreases rest.len(),
    {
        let ghost j = all.len() - rest@.len();
        let ghost before = rest@;
        assert(rest@.drop_first() =~= all.skip(j + 1));
        let result = rest.remove(0);
        assert(before[0] == result);
        match result {
            Err(e) => {
                return Err(e);
            },
            Ok(_) => {},
        }
    }
    Ok(())
}

/// Combines the results of stopping the stream and of restoring the lights: a failed
/// stop is reported, together with a failed restore when both failed; a failed restore
/// alone is reported as it is.
pub fn stop_session_result(stop: Result<(), HueError>, restore: Result<(), HueError>) -> (r: Result<(), HueError>)
    ensures
        match (stop, restore) {
            (Err(s), Err(rest)) => r matches Err(HueError::EntertainmentStream(m)) && m@
                == "stopping stream failed: "@ + hue_error_message(s) + "; restoring previous light states also failed: "@
                + hue_error_message(rest),
            (Err(s), Ok(_)) => r == Err::<(), HueError>(s),
            (Ok(_), Err(rest)) => r == Err::<(), HueError>(rest),
            (Ok(_), Ok(_)) => r is Ok,
        },
{
    match stop {
        Err(stop_error) => match restore {
            Err(restore_error) => {
                let m = String::from_str("stopping stream failed: ").concat(stop_error.message().as_str()).concat(
                    "; restoring previous light states also failed: ",
                ).concat(restore_error.message().as_str());
                Err(HueError::EntertainmentStream(m))
            },
            Ok(_) => Err(stop_error),
        },
        Ok(_) => restore,
    }
}

/// Whether the application id must be looked up before streaming: it is missing or blank.
pub fn needs_application_id(connection: &BridgeConnection) -> (r: bool)
    ensures
        r == (match connection.application_id {
            Some(a) => a@.len() == 0,
            None => true,
        }),
{
    match &connection.application_id {
        Some(a) => a.unicode_len() == 0,
        None => true,
    }
}

/// The error when settings are changed with no session running.
pub fn not_active_error() -> (r: HueError)
    ensures
        r matches HueError::EntertainmentStream(m) && m@ == "audio sync is not currently active"@,
{
    HueError::EntertainmentStream(String::from_str("audio sync is not currently active"))
}


/// The properties of an audio node that tell whether it is an output and how it is named.
#[derive(Clone, Debug, PartialEq, Eq)]
pub struct AudioNodeProps {
    pub media_class: Option<String>,
    pub object_serial: Option<String>,
    pub node_name: Option<String>,
    pub node_description: Option<String>,
    pub node_nick: Option<String>,
}

/// The first of two optional texts that is present.
pub open spec fn either(a: Option<String>, b: Option<String>) -> Option<String> {
    match a {
        Some(x) => Some(x),
        None => b,
    }
}

/// The output target an audio node stands for: only a sink (`Audio/Sink`) with a
/// non-empty serial (or, without a serial, a non-empty node name) is one.  Its
/// description is the first of description, nick and node name, else `Audio output`;
/// its name is the node name, else the description.  The fields are target, name,
/// description and media class.
pub open spec fn output_target_spec(p: AudioNodeProps) -> Option<(Seq<char>, Seq<char>, Seq<char>, Seq<char>)> {
    match p.media_class {
        Some(mc) => if mc@ != "Audio/Sink"@ {
            None
        } else {
            match either(p.object_serial, p.node_name) {
                Some(t) => if t@.len() == 0 {
                    None
                } else {
                    let description = match either(p.node_description, either(p.node_nick, p.node_name)) {
                        Some(d) => d@,
                        None => "Audio output"@,
                    };
                    let name = match p.node_name {
                        Some(n) => n@,
                        None => description,
                    };
                    Some((t@, name, description, mc@))
                },
                None => None,
            }
        },
        None => None,
    }
}

/// The fields of a target: target, name, description, media class.
pub open spec fn target_view(t: PipeWireOutputTarget) -> (Seq<char>, Seq<char>, Seq<char>, Seq<char>) {
    (t.target_object@, t.name@, t.description@, t.media_class@)
}

fn first_present(a: Option<String>, b: Option<String>) -> (r: Option<String>)
    ensures
        r == either(a, b),
{
    match a {
        Some(x) => Some(x),
        None => b,
    }
}

/// The output target an audio node stands for, if it is one.
pub fn output_target_from(props: AudioNodeProps) -> (r: Option<PipeWireOutputTarget>)
    ensures
        match r {
            Some(t) => output_target_spec(props) == Some(target_view(t)),
            None => output_target_spec(props) is None,
        },
{
    let ghost p = props;
    proof {
        reveal_strlit("Audio/Sink");
        reveal_strlit("Audio output");
    }
    let media_class = match props.media_class {
        Some(mc) => mc,
        None => {
            return None;
        },
    };
    if !str_eq(media_class.as_str(), "Audio/Sink") {
        return None;
    }
    let node_name = props.node_name;
    let target = match first_present(props.object_serial, node_name.clone()) {
        Some(t) => t,
        None => {
            return None;
        },
    };
    if target.unicode_len() == 0 {
        return None;
    }
    let description = match first_present(props.node_description, first_present(props.node_nick, node_name.clone())) {
        Some(d) => d,
        None => String::from_str("Audio output"),
    };
    let name = match node_name {
        Some(n) => n,
        None => description.clone(),
    };
    Some(PipeWireOutputTarget { target_object: target, name, description, media_class })
}

/// Targets ordered by description, then by target.
pub struct ByDescriptionThenTarget;

impl Precedence<PipeWireOutputTarget> for ByDescriptionThenTarget {
    open spec fn before(a: PipeWireOutputTarget, b: PipeWireOutputTarget) -> bool {
        name_then_id_before(a.description@, a.target_object@, b.description@, b.target_object@)
    }

    proof fn lemma_before_asymmetric(a: PipeWireOutputTarget, b: PipeWireOutputTarget) {
        lemma_name_then_id_asym(a.description@, a.target_object@, b.description@, b.target_object@);
    }

    fn precedes(a: &PipeWireOutputTarget, b: &PipeWireOutputTarget) -> (r: bool) {
        name_then_id_precedes(a.description.as_str(), a.target_object.as_str(), b.description.as_str(), b.target_object.as_str())
    }
}

/// `targets` with each run of neighbours naming the same target cut to its first entry.
pub open spec fn dedup_targets(targets: Seq<PipeWireOutputTarget>) -> Seq<PipeWireOutputTarget>
    decreases targets.len(),
{
    if targets.len() == 0 {
        Seq::empty()
    } else {
        let rest = dedup_targets(targets.drop_last());
        if rest.len() > 0 && rest.last().target_object@ == targets.last().target_object@ {
            rest
        } else {
            rest.push(targets.last())
        }
    }
}

/// The output targets stably sorted by description and target, each run of entries for
/// one target cut to its first.
pub fn sort_output_targets(targets: Vec<PipeWireOutputTarget>) -> (r: Vec<PipeWireOutputTarget>)
    ensures
        exists|sorted: Seq<PipeWireOutputTarget>|
            #![trigger dedup_targets(sorted)]
            sorted.to_multiset() == targets@.to_multiset() && sorted_by::<
                PipeWireOutputTarget,
                ByDescriptionThenTarget,
            >(sorted) && stably_rearranged::<PipeWireOutputTarget, ByDescriptionThenTarget>(targets@, sorted)
                && r@ == dedup_targets(sorted),
{
    let sorted = sort_by_order::<PipeWireOutputTarget, ByDescriptionThenTarget>(targets);
    let ghost all = sorted@;
    let mut rest = sorted;
    let mut out: Vec<PipeWireOutputTarget> = Vec::new();
    let ghost mut k: int = 0;
    while rest.len() > 0
        invariant
            0 <= k <= all.len(),
            rest@ == all.skip(k),
            out@ == dedup_targets(all.take(k)),
        decreases rest.len(),
    {
        let item = rest.remove(0);
        proof {
            assert(all.take(k + 1).drop_last() =~= all.take(k));
            assert(all.take(k + 1).last() == item);
            assert(rest@ =~= all.skip(k + 1));
        }
        let repeat = out.len() > 0 && str_eq(out[out.len() - 1].target_object.as_str(), item.target_object.as_str());
        if !repeat {
            out.push(item);
        }
        proof {
            k = k + 1;
        }
    }
    assert(all.take(all.len() as int) =~= all);
    out
}

} // verus!
