//! Room layout of the light grid: reordering rooms by drag and drop, applying a saved
//! room order, and the room sections with their lights and scenes.
use vstd::prelude::*;
use vstd::multiset::Multiset;
use crate::hue::models::{BridgeConnection, Group, GroupKind, Light, LightStateUpdate, Scene, SetLightStateRequest};
use crate::hue::presets::{offset_fits, preset_light_state, preset_state, light_offset_spec, CuratedScenePreset};
use crate::sorting::{
    Precedence, PrecedenceIn, sort_by_order, sort_by_order_in, sorted_by, sorted_in, stably_rearranged_in,
};
use crate::string_ops::views;
use crate::ui_rules::{NoticeTone, UiNotice};
use crate::text::{owned, copy_strings, lemma_lex_order_antisym, lex_order, compare_str, str_eq};

verus! {

/// Index of the first entry equal to `x`.
pub open spec fn index_of_first<A>(s: Seq<A>, x: A) -> Option<int>
    decreases s.len(),
{
    if s.len() == 0 {
        None
    } else if s[0] == x {
        Some(0)
    } else {
        match index_of_first(s.drop_first(), x) {
            Some(i) => Some(i + 1),
            None => None,
        }
    }
}

/// The first index of `x` is where it first occurs.
pub proof fn lemma_index_of_first<A>(s: Seq<A>, x: A, i: int)
    requires
        0 <= i <= s.len(),
        forall|k: int| 0 <= k < i ==> s[k] != x,
    ensures
        i < s.len() && s[i] == x ==> index_of_first(s, x) == Some(i),
        i == s.len() ==> index_of_first(s, x) is None,
    decreases i,
{
    if i > 0 {
        assert(s[0] != x);
        assert forall|k: int| 0 <= k < i - 1 implies s.drop_first()[k] != x by {
            assert(s.drop_first()[k] == s[k + 1]);
        }
        if i < s.len() {
            assert(s.drop_first()[i - 1] == s[i]);
        }
        lemma_index_of_first(s.drop_first(), x, i - 1);
    }
}

/// A found index is in range and holds `x`.
pub proof fn lemma_index_of_first_found<A>(s: Seq<A>, x: A)
    ensures
        index_of_first(s, x) matches Some(i) ==> 0 <= i < s.len() && s[i] == x,
    decreases s.len(),
{
    if s.len() > 0 && s[0] != x {
        lemma_index_of_first_found(s.drop_first(), x);
    }
}

/// The room order after dragging `source` onto `target`: the source is taken out and put
/// back at the target's former index (or last, when that is past the end); when either
/// room is not in the order, it stays as it is.
pub open spec fn reordered(s: Seq<Seq<char>>, source: Seq<char>, target: Seq<char>) -> Seq<Seq<char>> {
    match (index_of_first(s, source), index_of_first(s, target)) {
        (Some(i), Some(j)) => {
            let rest = s.remove(i);
            let at = if j < rest.len() {
                j
            } else {
                rest.len() as int
            };
            rest.insert(at, s[i])
        },
        _ => s,
    }
}

fn position_of(ids: &Vec<String>, id: &str) -> (r: Option<usize>)
    ensures
        match r {
            Some(i) => index_of_first(views(ids@), id@) == Some(i as int) && i < ids@.len(),
            None => index_of_first(views(ids@), id@) is None,
        },
{
    let ghost s = views(ids@);
    let mut i: usize = 0;
    while i < ids.len()
        invariant
            s == views(ids@),
            i <= ids@.len(),
            forall|j: int| 0 <= j < i ==> s[j] != id@,
        decreases ids.len() - i,
    {
        if str_eq(ids[i].as_str(), id) {
            proof {
                lemma_index_of_first(s, id@, i as int);
            }
            return Some(i);
        }
        i += 1;
    }
    proof {
        lemma_index_of_first(s, id@, i as int);
    }
    None
}

/// Moves room `source_id` to the position of room `target_id`.
pub fn reorder_room_ids(current_order: &Vec<String>, source_id: &str, target_id: &str) -> (r: Vec<String>)
    ensures
        views(r@) == reordered(views(current_order@), source_id@, target_id@),
{
    let mut out = copy_strings(current_order);
    let source_index = match position_of(&out, source_id) {
        Some(i) => i,
        None => {
            return out;
        },
    };
    let target_index = match position_of(&out, target_id) {
        Some(j) => j,
        None => {
            return out;
        },
    };
    let ghost s = views(out@);
    let moved = out.remove(source_index);
    let ghost rest = views(out@);
    assert(rest =~= s.remove(source_index as int));
    let insert_index = if target_index < out.len() {
        target_index
    } else {
        out.len()
    };
    out.insert(insert_index, moved);
    assert(views(out@) =~= rest.insert(insert_index as int, s[source_index as int]));
    out
}

/// A reorder keeps every room exactly once: the new order is a rearrangement of the old
/// one, and nothing changes when either room is missing.
pub proof fn lemma_reorder_is_rearrangement(s: Seq<Seq<char>>, source: Seq<char>, target: Seq<char>)
    ensures
        reordered(s, source, target).to_multiset() == s.to_multiset(),
        reordered(s, source, target).len() == s.len(),
        index_of_first(s, source) is None || index_of_first(s, target) is None ==> reordered(
            s,
            source,
            target,
        ) == s,
{
    broadcast use vstd::multiset::group_multiset_axioms, vstd::seq_lib::group_to_multiset_ensures;

    lemma_index_of_first_found(s, source);
    lemma_index_of_first_found(s, target);
    if let (Some(i), Some(j)) = (index_of_first(s, source), index_of_first(s, target)) {
        let rest = s.remove(i);
        let at = if j < rest.len() {
            j
        } else {
            rest.len() as int
        };
        vstd::seq_lib::to_multiset_remove(s, i);
        vstd::seq_lib::to_multiset_insert(rest, at, s[i]);
        assert(s.to_multiset().count(s[i]) > 0);
        assert(s.to_multiset() =~= s.to_multiset().remove(s[i]).insert(s[i]));
    }
}

/// A room of the light grid with its lights and scenes.
#[derive(Clone, Debug, PartialEq, Eq)]
pub struct RoomSection {
    pub id: String,
    pub can_craft_scenes: bool,
    pub name: String,
    pub active_light_count: usize,
    pub average_brightness: u8,
    pub lights: Vec<Light>,
    pub scenes: Vec<Scene>,
}

/// Index of the last entry equal to `x` (a later entry for the same room wins).
pub open spec fn index_of_last<A>(s: Seq<A>, x: A) -> Option<int>
    decreases s.len(),
{
    if s.len() == 0 {
        None
    } else if s.last() == x {
        Some(s.len() - 1)
    } else {
        index_of_last(s.drop_last(), x)
    }
}

/// Rooms in saved order: a room with a saved position comes before one without; two
/// with positions go by position, then name; two without go by name.
pub open spec fn room_before(saved: Seq<Seq<char>>, a: RoomSection, b: RoomSection) -> bool {
    match (index_of_last(saved, a.id@), index_of_last(saved, b.id@)) {
        (Some(x), Some(y)) => x < y || (x == y && lex_order(a.name@, b.name@) < 0),
        (Some(_), None) => true,
        (None, Some(_)) => false,
        (None, None) => lex_order(a.name@, b.name@) < 0,
    }
}

fn saved_position(saved: &Vec<String>, id: &str) -> (r: Option<usize>)
    ensures
        match r {
            Some(i) => index_of_last(views(saved@), id@) == Some(i as int),
            None => index_of_last(views(saved@), id@) is None,
        },
{
    let ghost s = views(saved@);
    let mut found: Option<usize> = None;
    let mut i: usize = 0;
    while i < saved.len()
        invariant
            s == views(saved@),
            i <= saved@.len(),
            match found {
                Some(k) => index_of_last(s.take(i as int), id@) == Some(k as int),
                None => index_of_last(s.take(i as int), id@) is None,
            },
        decreases saved.len() - i,
    {
        assert(s.take(i + 1).drop_last() =~= s.take(i as int));
        if str_eq(saved[i].as_str(), id) {
            found = Some(i);
        }
        i += 1;
    }
    assert(s.take(saved@.len() as int) =~= s);
    found
}

/// Sections ordered by a saved room order.
pub struct BySavedOrder;

impl PrecedenceIn<Vec<String>, RoomSection> for BySavedOrder {
    open spec fn before(ctx: Vec<String>, a: RoomSection, b: RoomSection) -> bool {
        room_before(views(ctx@), a, b)
    }

    proof fn lemma_before_asymmetric(ctx: Vec<String>, a: RoomSection, b: RoomSection) {
        lemma_lex_order_antisym(a.name@, b.name@);
    }

    fn precedes(ctx: &Vec<String>, a: &RoomSection, b: &RoomSection) -> (r: bool) {
        let pa = saved_position(ctx, a.id.as_str());
        let pb = saved_position(ctx, b.id.as_str());
        match (pa, pb) {
            (Some(x), Some(y)) => x < y || (x == y && compare_str(a.name.as_str(), b.name.as_str()) < 0),
            (Some(_), None) => true,
            (None, Some(_)) => false,
            (None, None) => compare_str(a.name.as_str(), b.name.as_str()) < 0,
        }
    }
}

/// Orders room sections by the saved room order: the same sections, with no section
/// placed after one that `room_before` puts behind it, and two sections trading places
/// only where `room_before` puts the later one first.
pub fn apply_room_order(sections: Vec<RoomSection>, saved_order: &Vec<String>) -> (r: Vec<RoomSection>)
    ensures
        r@.to_multiset() == sections@.to_multiset(),
        r@.len() == sections@.len(),
        forall|i: int|
            0 <= i < r@.len() - 1 ==> !room_before(views(saved_order@), r@[i + 1], #[trigger] r@[i]),
        stably_rearranged_in::<Vec<String>, RoomSection, BySavedOrder>(*saved_order, sections@, r@),
{
    let r = sort_by_order_in::<Vec<String>, RoomSection, BySavedOrder>(sections, saved_order);
    assert forall|i: int| 0 <= i < r@.len() - 1 implies !room_before(
        views(saved_order@),
        r@[i + 1],
        #[trigger] r@[i],
    ) by {
        assert(!BySavedOrder::before(*saved_order, r@[i + 1], r@[i]));
    }
    r
}

/// The state that brings a light back to how it is now: its power, brightness,
/// saturation and hue, with a short transition.
pub open spec fn snapshot_state(light: Light) -> LightStateUpdate {
    LightStateUpdate {
        on: light.is_on,
        brightness: light.brightness,
        saturation: light.saturation,
        hue: light.hue,
        transition_time: Some(4),
    }
}

/// Captures the state of each light, to restore it later; the bridge address and user
/// are filled in when the requests are sent.
pub fn snapshot_room_lights(lights: &Vec<Light>) -> (r: Vec<SetLightStateRequest>)
    ensures
        r@.len() == lights@.len(),
        forall|i: int|
            0 <= i < r@.len() ==> (#[trigger] r@[i]).bridge_ip@.len() == 0 && r@[i].username@.len() == 0
                && r@[i].light_id == lights@[i].id && r@[i].state == snapshot_state(lights@[i]),
{
    let mut out: Vec<SetLightStateRequest> = Vec::new();
    let mut i: usize = 0;
    while i < lights.len()
        invariant
            i <= lights@.len(),
            out@.len() == i,
            forall|k: int|
                0 <= k < i ==> (#[trigger] out@[k]).bridge_ip@.len() == 0 && out@[k].username@.len() == 0
                    && out@[k].light_id == lights@[k].id && out@[k].state == snapshot_state(lights@[k]),
        decreases lights.len() - i,
    {
        let light = &lights[i];
        out.push(
            SetLightStateRequest {
                bridge_ip: String::new(),
                username: String::new(),
                light_id: light.id.clone(),
                state: LightStateUpdate {
                    on: light.is_on,
                    brightness: light.brightness,
                    saturation: light.saturation,
                    hue: light.hue,
                    transition_time: Some(4),
                },
            },
        );
        i += 1;
    }
    out
}

/// A light after the bridge accepted `state`: each field that the state sets is taken
/// over, and a new saturation or hue drops the light's xy colour.
pub open spec fn applied_state(light: Light, state: LightStateUpdate) -> Light {
    Light {
        is_on: if state.on is Some {
            state.on
        } else {
            light.is_on
        },
        brightness: if state.brightness is Some {
            state.brightness
        } else {
            light.brightness
        },
        saturation: if state.saturation is Some {
            state.saturation
        } else {
            light.saturation
        },
        hue: if state.hue is Some {
            state.hue
        } else {
            light.hue
        },
        xy_bits: if state.saturation is Some || state.hue is Some {
            None
        } else {
            light.xy_bits
        },
        ..light
    }
}

/// Updates a light in place after the bridge accepted a state change.
pub fn apply_state_update(light: &mut Light, state: &LightStateUpdate)
    ensures
        *final(light) == applied_state(*old(light), *state),
{
    if let Some(is_on) = state.on {
        light.is_on = Some(is_on);
    }
    if let Some(brightness) = state.brightness {
        light.brightness = Some(brightness);
    }
    if let Some(saturation) = state.saturation {
        light.saturation = Some(saturation);
        light.xy_bits = None;
    }
    if let Some(hue) = state.hue {
        light.hue = Some(hue);
        light.xy_bits = None;
    }
}

/// Applying the same accepted state twice leaves the light as applying it once.
pub proof fn lemma_apply_state_idempotent(light: Light, state: LightStateUpdate)
    ensures
        applied_state(applied_state(light, state), state) == applied_state(light, state),
{
}

/// Restoring a snapshot brings back every field that was captured, whatever the light
/// went through in between.
pub proof fn lemma_restore_snapshot(captured: Light, current: Light)
    ensures
        ({
            let restored = applied_state(current, snapshot_state(captured));
            &&& captured.is_on is Some ==> restored.is_on == captured.is_on
            &&& captured.brightness is Some ==> restored.brightness == captured.brightness
            &&& captured.saturation is Some ==> restored.saturation == captured.saturation
            &&& captured.hue is Some ==> restored.hue == captured.hue
        }),
{
}

/// The lights of `ids`, in that order: for each identifier, the first light that has it;
/// identifiers without a light are skipped.
pub open spec fn lights_with_ids(lights: Seq<Light>, ids: Seq<String>) -> Seq<Light>
    decreases ids.len(),
{
    if ids.len() == 0 {
        Seq::empty()
    } else {
        let rest = lights_with_ids(lights, ids.drop_last());
        match index_of_light(lights, ids.last()@) {
            Some(k) => rest.push(lights[k]),
            None => rest,
        }
    }
}

/// Index of the first light with identifier `id`.
pub open spec fn index_of_light(lights: Seq<Light>, id: Seq<char>) -> Option<int>
    decreases lights.len(),
{
    if lights.len() == 0 {
        None
    } else if lights[0].id@ == id {
        Some(0)
    } else {
        match index_of_light(lights.drop_first(), id) {
            Some(i) => Some(i + 1),
            None => None,
        }
    }
}

proof fn lemma_index_of_light(lights: Seq<Light>, id: Seq<char>, i: int)
    requires
        0 <= i <= lights.len(),
        forall|k: int| 0 <= k < i ==> (#[trigger] lights[k]).id@ != id,
    ensures
        i < lights.len() && lights[i].id@ == id ==> index_of_light(lights, id) == Some(i),
        i == lights.len() ==> index_of_light(lights, id) is None,
    decreases i,
{
    if i > 0 {
        assert(lights[0].id@ != id);
        assert forall|k: int| 0 <= k < i - 1 implies (#[trigger] lights.drop_first()[k]).id@ != id by {
            assert(lights.drop_first()[k] == lights[k + 1]);
        }
        if i < lights.len() {
            assert(lights.drop_first()[i - 1] == lights[i]);
        }
        lemma_index_of_light(lights.drop_first(), id, i - 1);
    }
}

fn find_light(lights: &Vec<Light>, id: &str) -> (r: Option<usize>)
    ensures
        match r {
            Some(i) => index_of_light(lights@, id@) == Some(i as int) && i < lights@.len(),
            None => index_of_light(lights@, id@) is None,
        },
{
    let mut i: usize = 0;
    while i < lights.len()
        invariant
            i <= lights@.len(),
            forall|k: int| 0 <= k < i ==> (#[trigger] lights@[k]).id@ != id@,
        decreases lights.len() - i,
    {
        if str_eq(lights[i].id.as_str(), id) {
            proof {
                lemma_index_of_light(lights@, id@, i as int);
            }
            return Some(i);
        }
        i += 1;
    }
    proof {
        lemma_index_of_light(lights@, id@, i as int);
    }
    None
}

/// Index of the first room (not zone) with identifier `id`.
pub open spec fn index_of_room(groups: Seq<Group>, id: Seq<char>) -> Option<int>
    decreases groups.len(),
{
    if groups.len() == 0 {
        None
    } else if groups[0].id@ == id && groups[0].kind == GroupKind::Room {
        Some(0)
    } else {
        match index_of_room(groups.drop_first(), id) {
            Some(i) => Some(i + 1),
            None => None,
        }
    }
}

proof fn lemma_index_of_room(groups: Seq<Group>, id: Seq<char>, i: int)
    requires
        0 <= i <= groups.len(),
        forall|k: int| 0 <= k < i ==> !((#[trigger] groups[k]).id@ == id && groups[k].kind == GroupKind::Room),
    ensures
        i < groups.len() && groups[i].id@ == id && groups[i].kind == GroupKind::Room ==> index_of_room(groups, id)
            == Some(i),
        i == groups.len() ==> index_of_room(groups, id) is None,
    decreases i,
{
    if i > 0 {
        assert(!(groups[0].id@ == id && groups[0].kind == GroupKind::Room));
        assert forall|k: int| 0 <= k < i - 1 implies !((#[trigger] groups.drop_first()[k]).id@ == id
            && groups.drop_first()[k].kind == GroupKind::Room) by {
            assert(groups.drop_first()[k] == groups[k + 1]);
        }
        if i < groups.len() {
            assert(groups.drop_first()[i - 1] == groups[i]);
        }
        lemma_index_of_room(groups.drop_first(), id, i - 1);
    }
}

/// The room with identifier `room_id` and its lights, in the room's order; `None` when
/// there is no such room (a zone does not count).
pub fn collect_room_context(groups: &Vec<Group>, lights: &Vec<Light>, room_id: &str) -> (r: Option<(Group, Vec<Light>)>)
    ensures
        match index_of_room(groups@, room_id@) {
            Some(g) => r matches Some((room, room_lights)) && room.same_as(groups@[g]) && room_lights@
                == lights_with_ids(lights@, groups@[g].light_ids@),
            None => r is None,
        },
{
    let mut g: usize = 0;
    while g < groups.len() && !(str_eq(groups[g].id.as_str(), room_id) && groups[g].kind == GroupKind::Room)
        invariant
            g <= groups@.len(),
            forall|k: int|
                0 <= k < g ==> !((#[trigger] groups@[k]).id@ == room_id@ && groups@[k].kind == GroupKind::Room),
        decreases groups.len() - g,
    {
        g += 1;
    }
    proof {
        lemma_index_of_room(groups@, room_id@, g as int);
    }
    if g == groups.len() {
        return None;
    }
    let room = groups[g].duplicate();
    let ids = &groups[g].light_ids;
    let mut room_lights: Vec<Light> = Vec::new();
    let mut i: usize = 0;
    while i < ids.len()
        invariant
            i <= ids@.len(),
            room_lights@ == lights_with_ids(lights@, ids@.take(i as int)),
        decreases ids.len() - i,
    {
        assert(ids@.take(i + 1).drop_last() =~= ids@.take(i as int));
        match find_light(lights, ids[i].as_str()) {
            Some(k) => room_lights.push(lights[k].duplicate()),
            None => {},
        }
        i += 1;
    }
    assert(ids@.take(ids@.len() as int) =~= ids@);
    Some((room, room_lights))
}

/// A record with a display name.
pub trait Named {
    spec fn name_view(&self) -> Seq<char>;

    fn name_str(&self) -> (r: &str)
        ensures
            r@ == self.name_view(),
    ;
}

impl Named for Light {
    open spec fn name_view(&self) -> Seq<char> {
        self.name@
    }

    fn name_str(&self) -> (r: &str) {
        self.name.as_str()
    }
}

impl Named for Group {
    open spec fn name_view(&self) -> Seq<char> {
        self.name@
    }

    fn name_str(&self) -> (r: &str) {
        self.name.as_str()
    }
}

impl Named for Scene {
    open spec fn name_view(&self) -> Seq<char> {
        self.name@
    }

    fn name_str(&self) -> (r: &str) {
        self.name.as_str()
    }
}

/// The name of item `k`, empty past the end.
pub open spec fn name_at<T: Named>(items: Seq<T>, k: int) -> Seq<char> {
    if 0 <= k < items.len() {
        items[k].name_view()
    } else {
        Seq::empty()
    }
}

/// Item `a` comes before item `b`: by name, then by position (a stable sort by name).
pub open spec fn index_before<T: Named>(items: Seq<T>, a: int, b: int) -> bool {
    lex_order(name_at(items, a), name_at(items, b)) < 0 || (lex_order(name_at(items, a), name_at(items, b))
        == 0 && a < b)
}

/// Positions into a list ordered by the names they point at.
pub struct ByNameThenIndex;

impl<T: Named> PrecedenceIn<Vec<T>, usize> for ByNameThenIndex {
    open spec fn before(ctx: Vec<T>, a: usize, b: usize) -> bool {
        index_before(ctx@, a as int, b as int)
    }

    proof fn lemma_before_asymmetric(ctx: Vec<T>, a: usize, b: usize) {
        lemma_lex_order_antisym(name_at(ctx@, a as int), name_at(ctx@, b as int));
    }

    fn precedes(ctx: &Vec<T>, a: &usize, b: &usize) -> (r: bool) {
        let na = if *a < ctx.len() {
            ctx[*a].name_str()
        } else {
            ""
        };
        let nb = if *b < ctx.len() {
            ctx[*b].name_str()
        } else {
            ""
        };
        proof {
            reveal_strlit("");
        }
        let c = compare_str(na, nb);
        c < 0 || (c == 0 && *a < *b)
    }
}

/// Positions `idx` list, with repeats, exactly `wanted`, ordered by name then position.
pub open spec fn ordered_positions<T: Named>(items: Seq<T>, idx: Seq<usize>, wanted: Seq<usize>) -> bool {
    &&& idx.to_multiset() == wanted.to_multiset()
    &&& forall|i: int|
        0 <= i < idx.len() - 1 ==> !index_before(items, idx[i + 1] as int, #[trigger] idx[i] as int)
}

/// The positions below `n` of the lights whose identifier is in `ids`.
pub open spec fn member_positions(lights: Seq<Light>, ids: Seq<String>, n: int) -> Seq<usize>
    decreases n,
{
    if n <= 0 {
        Seq::empty()
    } else if views(ids).contains(lights[n - 1].id@) {
        member_positions(lights, ids, n - 1).push((n - 1) as usize)
    } else {
        member_positions(lights, ids, n - 1)
    }
}

/// The positions below `n` of the scenes of room `room_id`.
pub open spec fn scene_positions(scenes: Seq<Scene>, room_id: Seq<char>, n: int) -> Seq<usize>
    decreases n,
{
    if n <= 0 {
        Seq::empty()
    } else if scenes[n - 1].group_id matches Some(g) && g@ == room_id {
        scene_positions(scenes, room_id, n - 1).push((n - 1) as usize)
    } else {
        scene_positions(scenes, room_id, n - 1)
    }
}

/// The positions below `n` of the groups that are rooms.
pub open spec fn room_positions(groups: Seq<Group>, n: int) -> Seq<usize>
    decreases n,
{
    if n <= 0 {
        Seq::empty()
    } else if groups[n - 1].kind == GroupKind::Room {
        room_positions(groups, n - 1).push((n - 1) as usize)
    } else {
        room_positions(groups, n - 1)
    }
}

/// The items at the given positions.
pub open spec fn at_positions<T>(items: Seq<T>, idx: Seq<usize>) -> Seq<T> {
    idx.map_values(|k: usize| items[k as int])
}

/// Number of lights that are on.
pub open spec fn lights_on(lights: Seq<Light>) -> nat
    decreases lights.len(),
{
    if lights.len() == 0 {
        0
    } else {
        lights_on(lights.drop_last()) + (if lights.last().is_on == Some(true) {
            1nat
        } else {
            0nat
        })
    }
}

/// Sum of the brightness of the lights, an unknown brightness counting as zero.
pub open spec fn brightness_sum(lights: Seq<Light>) -> nat
    decreases lights.len(),
{
    if lights.len() == 0 {
        0
    } else {
        brightness_sum(lights.drop_last()) + (match lights.last().brightness {
            Some(b) => b as nat,
            None => 0nat,
        })
    }
}

/// The average brightness of the lights, rounded down; zero for no lights.
pub open spec fn average_brightness(lights: Seq<Light>) -> nat {
    if lights.len() == 0 {
        0
    } else {
        brightness_sum(lights) / lights.len()
    }
}

/// The light positions that a section's lights are taken from.
pub open spec fn lights_from(lights: Seq<Light>, wanted: Seq<usize>, shown: Seq<Light>, order: Seq<usize>) -> bool {
    ordered_positions(lights, order, wanted) && shown == at_positions(lights, order)
}

/// The scene positions that a section's scenes are taken from.
pub open spec fn scenes_from(scenes: Seq<Scene>, wanted: Seq<usize>, shown: Seq<Scene>, order: Seq<usize>) -> bool {
    ordered_positions(scenes, order, wanted) && shown == at_positions(scenes, order)
}

/// The section of room `g`: the room's identifier and name, its lights and its scenes
/// each ordered by name, the number of lights on and their average brightness.
pub open spec fn section_of_room(s: RoomSection, g: Group, lights: Seq<Light>, scenes: Seq<Scene>) -> bool {
    &&& s.id@ == g.id@
    &&& s.name@ == g.name@
    &&& s.can_craft_scenes
    &&& exists|lo: Seq<usize>|
        #[trigger] lights_from(lights, member_positions(lights, g.light_ids@, lights.len() as int), s.lights@, lo)
    &&& exists|so: Seq<usize>|
        #[trigger] scenes_from(scenes, scene_positions(scenes, g.id@, scenes.len() as int), s.scenes@, so)
    &&& s.active_light_count == lights_on(s.lights@)
    &&& s.average_brightness == average_brightness(s.lights@)
}

/// A room is shown when it has a light or a scene.
pub open spec fn room_shown(g: Group, lights: Seq<Light>, scenes: Seq<Scene>) -> bool {
    member_positions(lights, g.light_ids@, lights.len() as int).len() > 0 || scene_positions(
        scenes,
        g.id@,
        scenes.len() as int,
    ).len() > 0
}

/// The rooms of `order` that are shown, in order.
pub open spec fn shown_rooms(groups: Seq<Group>, order: Seq<usize>, lights: Seq<Light>, scenes: Seq<Scene>) -> Seq<usize>
    decreases order.len(),
{
    if order.len() == 0 {
        Seq::empty()
    } else if room_shown(groups[order.last() as int], lights, scenes) {
        shown_rooms(groups, order.drop_last(), lights, scenes).push(order.last())
    } else {
        shown_rooms(groups, order.drop_last(), lights, scenes)
    }
}

/// A light belongs to a shown room.
pub open spec fn in_shown_room(groups: Seq<Group>, shown: Seq<usize>, light: Light) -> bool {
    exists|i: int| 0 <= i < shown.len() && views(groups[shown[i] as int].light_ids@).contains(#[trigger] light.id@)
}

/// The positions below `n` of the lights of no shown room.
pub open spec fn orphan_positions(groups: Seq<Group>, shown: Seq<usize>, lights: Seq<Light>, n: int) -> Seq<usize>
    decreases n,
{
    if n <= 0 {
        Seq::empty()
    } else if !in_shown_room(groups, shown, lights[n - 1]) {
        orphan_positions(groups, shown, lights, n - 1).push((n - 1) as usize)
    } else {
        orphan_positions(groups, shown, lights, n - 1)
    }
}

/// The closing section of the lights of no room.
pub open spec fn unassigned_section(s: RoomSection, lights: Seq<Light>, wanted: Seq<usize>) -> bool {
    &&& s.id@ == "unassigned"@
    &&& s.name@ == "Unassigned"@
    &&& !s.can_craft_scenes
    &&& s.active_light_count == 0
    &&& s.average_brightness == 0
    &&& s.scenes@.len() == 0
    &&& exists|lo: Seq<usize>| #[trigger] lights_from(lights, wanted, s.lights@, lo)
}

/// The sections of the light grid: the rooms that have lights or scenes, ordered by
/// name (then by their place in `groups`), then a section of the lights of no shown room
/// when there are any.
pub open spec fn room_sections_are(
    r: Seq<RoomSection>,
    lights: Seq<Light>,
    groups: Seq<Group>,
    scenes: Seq<Scene>,
    order: Seq<usize>,
) -> bool {
    let shown = shown_rooms(groups, order, lights, scenes);
    let orphans = orphan_positions(groups, shown, lights, lights.len() as int);
    &&& ordered_positions(groups, order, room_positions(groups, groups.len() as int))
    &&& r.len() == shown.len() + (if orphans.len() > 0 {
        1int
    } else {
        0int
    })
    &&& forall|i: int|
        0 <= i < shown.len() ==> section_of_room(#[trigger] r[i], groups[shown[i] as int], lights, scenes)
    &&& orphans.len() > 0 ==> unassigned_section(r[shown.len() as int], lights, orphans)
}

fn room_positions_of(groups: &Vec<Group>) -> (r: Vec<usize>)
    ensures
        r@ == room_positions(groups@, groups@.len() as int),
{
    let mut out: Vec<usize> = Vec::new();
    let mut k: usize = 0;
    while k < groups.len()
        invariant
            k <= groups@.len(),
            out@ == room_positions(groups@, k as int),
        decreases groups.len() - k,
    {
        if groups[k].kind == GroupKind::Room {
            out.push(k);
        }
        k += 1;
    }
    out
}

fn holds(ids: &Vec<String>, id: &str) -> (r: bool)
    ensures
        r == views(ids@).contains(id@),
{
    let mut i: usize = 0;
    while i < ids.len()
        invariant
            i <= ids@.len(),
            forall|k: int| 0 <= k < i ==> views(ids@)[k] != id@,
        decreases ids.len() - i,
    {
        if str_eq(ids[i].as_str(), id) {
            assert(views(ids@)[i as int] == id@);
            return true;
        }
        i += 1;
    }
    false
}

fn member_positions_of(lights: &Vec<Light>, ids: &Vec<String>) -> (r: Vec<usize>)
    ensures
        r@ == member_positions(lights@, ids@, lights@.len() as int),
{
    let mut out: Vec<usize> = Vec::new();
    let mut k: usize = 0;
    while k < lights.len()
        invariant
            k <= lights@.len(),
            out@ == member_positions(lights@, ids@, k as int),
        decreases lights.len() - k,
    {
        if holds(ids, lights[k].id.as_str()) {
            out.push(k);
        }
        k += 1;
    }
    out
}

fn scene_positions_of(scenes: &Vec<Scene>, room_id: &str) -> (r: Vec<usize>)
    ensures
        r@ == scene_positions(scenes@, room_id@, scenes@.len() as int),
{
    let mut out: Vec<usize> = Vec::new();
    let mut k: usize = 0;
    while k < scenes.len()
        invariant
            k <= scenes@.len(),
            out@ == scene_positions(scenes@, room_id@, k as int),
        decreases scenes.len() - k,
    {
        let belongs = match &scenes[k].group_id {
            Some(g) => str_eq(g.as_str(), room_id),
            None => false,
        };
        if belongs {
            out.push(k);
        }
        k += 1;
    }
    out
}

/// Positions collected below `n` stay below `n`.
proof fn lemma_positions_below<T>(wanted: Seq<usize>, idx: Seq<usize>, n: int)
    requires
        forall|i: int| 0 <= i < wanted.len() ==> wanted[i] < n,
        idx.to_multiset() == wanted.to_multiset(),
    ensures
        forall|i: int| 0 <= i < idx.len() ==> idx[i] < n,
{
    broadcast use vstd::seq_lib::group_to_multiset_ensures;

    assert forall|i: int| 0 <= i < idx.len() implies idx[i] < n by {
        assert(idx.contains(idx[i]));
        assert(idx.to_multiset().count(idx[i]) > 0);
        assert(wanted.contains(idx[i]));
    }
}

proof fn lemma_member_positions_below(lights: Seq<Light>, ids: Seq<String>, n: int)
    requires
        n <= usize::MAX,
    ensures
        forall|i: int| 0 <= i < member_positions(lights, ids, n).len() ==> member_positions(lights, ids, n)[i] < n,
    decreases n,
{
    if n > 0 {
        lemma_member_positions_below(lights, ids, n - 1);
        let prev = member_positions(lights, ids, n - 1);
        let cur = member_positions(lights, ids, n);
        assert forall|i: int| 0 <= i < cur.len() implies cur[i] < n by {
            if i < prev.len() {
                assert(cur[i] == prev[i]);
            }
        }
    }
}

proof fn lemma_scene_positions_below(scenes: Seq<Scene>, room_id: Seq<char>, n: int)
    requires
        n <= usize::MAX,
    ensures
        forall|i: int| 0 <= i < scene_positions(scenes, room_id, n).len() ==> scene_positions(scenes, room_id, n)[i] < n,
    decreases n,
{
    if n > 0 {
        lemma_scene_positions_below(scenes, room_id, n - 1);
        let prev = scene_positions(scenes, room_id, n - 1);
        let cur = scene_positions(scenes, room_id, n);
        assert forall|i: int| 0 <= i < cur.len() implies cur[i] < n by {
            if i < prev.len() {
                assert(cur[i] == prev[i]);
            }
        }
    }
}

proof fn lemma_room_positions_below(groups: Seq<Group>, n: int)
    requires
        n <= usize::MAX,
    ensures
        forall|i: int| 0 <= i < room_positions(groups, n).len() ==> room_positions(groups, n)[i] < n,
    decreases n,
{
    if n > 0 {
        lemma_room_positions_below(groups, n - 1);
        let prev = room_positions(groups, n - 1);
        let cur = room_positions(groups, n);
        assert forall|i: int| 0 <= i < cur.len() implies cur[i] < n by {
            if i < prev.len() {
                assert(cur[i] == prev[i]);
            }
        }
    }
}

/// Positions ordered by the names they point at, stably.
fn order_by_name<T: Named>(items: &Vec<T>, idx: Vec<usize>) -> (r: Vec<usize>)
    ensures
        ordered_positions(items@, r@, idx@),
{
    let r = sort_by_order_in::<Vec<T>, usize, ByNameThenIndex>(idx, items);
    assert forall|i: int| 0 <= i < r@.len() - 1 implies !index_before(
        items@,
        r@[i + 1] as int,
        #[trigger] r@[i] as int,
    ) by {
        assert(!ByNameThenIndex::before(*items, r@[i + 1], r@[i]));
    }
    r
}

fn lights_at(lights: &Vec<Light>, idx: &Vec<usize>) -> (r: Vec<Light>)
    requires
        forall|i: int| 0 <= i < idx@.len() ==> idx@[i] < lights@.len(),
    ensures
        r@ == at_positions(lights@, idx@),
{
    let mut out: Vec<Light> = Vec::new();
    let mut i: usize = 0;
    while i < idx.len()
        invariant
            i <= idx@.len(),
            forall|j: int| 0 <= j < idx@.len() ==> idx@[j] < lights@.len(),
            out@ == at_positions(lights@, idx@.take(i as int)),
        decreases idx.len() - i,
    {
        out.push(lights[idx[i]].duplicate());
        assert(at_positions(lights@, idx@.take(i + 1)) =~= at_positions(lights@, idx@.take(i as int)).push(
            lights@[idx@[i as int] as int],
        ));
        i += 1;
    }
    assert(idx@.take(idx@.len() as int) =~= idx@);
    out
}

fn scenes_at(scenes: &Vec<Scene>, idx: &Vec<usize>) -> (r: Vec<Scene>)
    requires
        forall|i: int| 0 <= i < idx@.len() ==> idx@[i] < scenes@.len(),
    ensures
        r@ == at_positions(scenes@, idx@),
{
    let mut out: Vec<Scene> = Vec::new();
    let mut i: usize = 0;
    while i < idx.len()
        invariant
            i <= idx@.len(),
            forall|j: int| 0 <= j < idx@.len() ==> idx@[j] < scenes@.len(),
            out@ == at_positions(scenes@, idx@.take(i as int)),
        decreases idx.len() - i,
    {
        out.push(scenes[idx[i]].duplicate());
        assert(at_positions(scenes@, idx@.take(i + 1)) =~= at_positions(scenes@, idx@.take(i as int)).push(
            scenes@[idx@[i as int] as int],
        ));
        i += 1;
    }
    assert(idx@.take(idx@.len() as int) =~= idx@);
    out
}

proof fn lemma_brightness_sum_bound(lights: Seq<Light>)
    ensures
        brightness_sum(lights) <= 255 * lights.len(),
        lights_on(lights) <= lights.len(),
    decreases lights.len(),
{
    if lights.len() > 0 {
        lemma_brightness_sum_bound(lights.drop_last());
    }
}

/// The number of lights on and the average brightness.
fn light_stats(lights: &Vec<Light>) -> (r: (usize, u8))
    requires
        lights@.len() <= 16843009,
    ensures
        r.0 == lights_on(lights@),
        r.1 == average_brightness(lights@),
{
    let mut on: usize = 0;
    let mut total: u32 = 0;
    let mut i: usize = 0;
    while i < lights.len()
        invariant
            i <= lights@.len(),
            lights@.len() <= 16843009,
            on == lights_on(lights@.take(i as int)),
            total == brightness_sum(lights@.take(i as int)),
        decreases lights.len() - i,
    {
        assert(lights@.take(i + 1).drop_last() =~= lights@.take(i as int));
        proof {
            lemma_brightness_sum_bound(lights@.take(i + 1));
        }
        match lights[i].is_on {
            Some(true) => {
                on += 1;
            },
            _ => {},
        }
        let b: u32 = match lights[i].brightness {
            Some(b) => b as u32,
            None => 0,
        };
        total = total + b;
        i += 1;
    }
    assert(lights@.take(lights@.len() as int) =~= lights@);
    if lights.len() == 0 {
        (on, 0)
    } else {
        let avg = total / (lights.len() as u32);
        proof {
            lemma_brightness_sum_bound(lights@);
            let n = lights@.len() as int;
            vstd::arithmetic::div_mod::lemma_div_is_ordered(total as int, n * 255, n);
            vstd::arithmetic::div_mod::lemma_div_multiples_vanish(255, n);
            assert(n * 255 == 255 * n) by (nonlinear_arith);
        }
        (on, avg as u8)
    }
}

/// Whether a light belongs to one of the shown rooms.
fn in_shown(groups: &Vec<Group>, shown: &Vec<usize>, light: &Light) -> (r: bool)
    requires
        forall|i: int| 0 <= i < shown@.len() ==> shown@[i] < groups@.len(),
    ensures
        r == in_shown_room(groups@, shown@, *light),
{
    let mut i: usize = 0;
    while i < shown.len()
        invariant
            i <= shown@.len(),
            forall|j: int| 0 <= j < shown@.len() ==> shown@[j] < groups@.len(),
            forall|j: int|
                0 <= j < i ==> !views(groups@[shown@[j] as int].light_ids@).contains(light.id@),
        decreases shown.len() - i,
    {
        if holds(&groups[shown[i]].light_ids, light.id.as_str()) {
            return true;
        }
        i += 1;
    }
    false
}

/// The sections of the light grid (see `room_sections_are`).
pub fn build_room_sections(lights: &Vec<Light>, groups: &Vec<Group>, scenes: &Vec<Scene>) -> (r: Vec<RoomSection>)
    requires
        lights@.len() <= 16843009,
    ensures
        exists|order: Seq<usize>| #[trigger] room_sections_are(r@, lights@, groups@, scenes@, order),
{
    let group_count = groups.len();
    let scene_count = scenes.len();
    let light_count = lights.len();
    let rooms = room_positions_of(groups);
    let order = order_by_name(groups, rooms);
    proof {
        lemma_room_positions_below(groups@, groups@.len() as int);
        lemma_positions_below::<Group>(room_positions(groups@, groups@.len() as int), order@, groups@.len() as int);
    }
    let mut sections: Vec<RoomSection> = Vec::new();
    let mut shown: Vec<usize> = Vec::new();
    let mut i: usize = 0;
    while i < order.len()
        invariant
            i <= order@.len(),
            lights@.len() <= 16843009,
            scenes@.len() == scene_count,
            lights@.len() == light_count,
            forall|j: int| 0 <= j < order@.len() ==> order@[j] < groups@.len(),
            shown@ == shown_rooms(groups@, order@.take(i as int), lights@, scenes@),
            sections@.len() == shown@.len(),
            forall|j: int| 0 <= j < shown@.len() ==> shown@[j] < groups@.len(),
            forall|j: int|
                0 <= j < shown@.len() ==> section_of_room(
                    #[trigger] sections@[j],
                    groups@[shown@[j] as int],
                    lights@,
                    scenes@,
                ),
        decreases order.len() - i,
    {
        assert(order@.take(i + 1).drop_last() =~= order@.take(i as int));
        let g = order[i];
        let group = &groups[g];
        let members = member_positions_of(lights, &group.light_ids);
        let light_order = order_by_name(lights, members);
        proof {
            lemma_member_positions_below(lights@, group.light_ids@, lights@.len() as int);
            lemma_positions_below::<Light>(
                member_positions(lights@, group.light_ids@, lights@.len() as int),
                light_order@,
                lights@.len() as int,
            );
        }
        let room_lights = lights_at(lights, &light_order);
        let scene_members = scene_positions_of(scenes, group.id.as_str());
        let scene_order = order_by_name(scenes, scene_members);
        proof {
            lemma_scene_positions_below(scenes@, group.id@, scenes@.len() as int);
            lemma_positions_below::<Scene>(
                scene_positions(scenes@, group.id@, scenes@.len() as int),
                scene_order@,
                scenes@.len() as int,
            );
        }
        let room_scenes = scenes_at(scenes, &scene_order);
        proof {
            broadcast use vstd::seq_lib::group_to_multiset_ensures;

            lemma_member_positions_len(lights@, group.light_ids@, lights@.len() as int);
            assert(light_order@.len() == light_order@.to_multiset().len());
            assert(members@.len() == members@.to_multiset().len());
            assert(scene_order@.len() == scene_order@.to_multiset().len());
            assert(scene_members@.len() == scene_members@.to_multiset().len());
        }
        let (active, average) = light_stats(&room_lights);
        if room_lights.len() > 0 || room_scenes.len() > 0 {
            let section = RoomSection {
                id: group.id.clone(),
                can_craft_scenes: true,
                name: group.name.clone(),
                active_light_count: active,
                average_brightness: average,
                lights: room_lights,
                scenes: room_scenes,
            };
            proof {
                assert(lights_from(
                    lights@,
                    member_positions(lights@, group.light_ids@, lights@.len() as int),
                    section.lights@,
                    light_order@,
                ));
                assert(scenes_from(
                    scenes@,
                    scene_positions(scenes@, group.id@, scenes@.len() as int),
                    section.scenes@,
                    scene_order@,
                ));
            }
            sections.push(section);
            shown.push(g);
        }
        i += 1;
    }
    assert(order@.take(order@.len() as int) =~= order@);
    let mut orphans: Vec<usize> = Vec::new();
    let mut k: usize = 0;
    while k < lights.len()
        invariant
            k <= lights@.len(),
            forall|j: int| 0 <= j < shown@.len() ==> shown@[j] < groups@.len(),
            orphans@ == orphan_positions(groups@, shown@, lights@, k as int),
        decreases lights.len() - k,
    {
        if !in_shown(groups, &shown, &lights[k]) {
            orphans.push(k);
        }
        k += 1;
    }
    if orphans.len() > 0 {
        let ghost wanted = orphans@;
        let orphan_order = order_by_name(lights, orphans);
        proof {
            lemma_orphan_positions_below(groups@, shown@, lights@, lights@.len() as int);
            lemma_positions_below::<Light>(wanted, orphan_order@, lights@.len() as int);
        }
        let orphan_lights = lights_at(lights, &orphan_order);
        let section = RoomSection {
            id: String::from_str("unassigned"),
            can_craft_scenes: false,
            name: String::from_str("Unassigned"),
            active_light_count: 0,
            average_brightness: 0,
            lights: orphan_lights,
            scenes: Vec::new(),
        };
        proof {
            assert(lights_from(lights@, wanted, section.lights@, orphan_order@));
        }
        sections.push(section);
    }
    proof {
        assert(room_sections_are(sections@, lights@, groups@, scenes@, order@));
    }
    sections
}

proof fn lemma_member_positions_len(lights: Seq<Light>, ids: Seq<String>, n: int)
    requires
        n >= 0,
    ensures
        member_positions(lights, ids, n).len() <= n,
    decreases n,
{
    if n > 0 {
        lemma_member_positions_len(lights, ids, n - 1);
    }
}

proof fn lemma_orphan_positions_below(groups: Seq<Group>, shown: Seq<usize>, lights: Seq<Light>, n: int)
    requires
        n <= usize::MAX,
    ensures
        forall|i: int|
            0 <= i < orphan_positions(groups, shown, lights, n).len() ==> orphan_positions(groups, shown, lights, n)[i]
                < n,
    decreases n,
{
    if n > 0 {
        lemma_orphan_positions_below(groups, shown, lights, n - 1);
        let prev = orphan_positions(groups, shown, lights, n - 1);
        let cur = orphan_positions(groups, shown, lights, n);
        assert forall|i: int| 0 <= i < cur.len() implies cur[i] < n by {
            if i < prev.len() {
                assert(cur[i] == prev[i]);
            }
        }
    }
}


/// The state last requested for the light `id`, if any request names it.
pub open spec fn last_state_for(requests: Seq<SetLightStateRequest>, id: Seq<char>) -> Option<LightStateUpdate>
    decreases requests.len(),
{
    if requests.len() == 0 {
        None
    } else if requests.last().light_id@ == id {
        Some(requests.last().state)
    } else {
        last_state_for(requests.drop_last(), id)
    }
}

/// A light after a room update the bridge accepted: the state last requested for it,
/// applied; a light no request names is unchanged.
pub open spec fn after_room_update(light: Light, requests: Seq<SetLightStateRequest>) -> Light {
    match last_state_for(requests, light.id@) {
        Some(state) => applied_state(light, state),
        None => light,
    }
}

fn last_request_for(requests: &Vec<SetLightStateRequest>, id: &str) -> (r: Option<usize>)
    ensures
        match r {
            Some(k) => k < requests@.len() && last_state_for(requests@, id@) == Some(requests@[k as int].state),
            None => last_state_for(requests@, id@) is None,
        },
{
    let mut k: usize = requests.len();
    assert(requests@.take(requests@.len() as int) =~= requests@);
    while k > 0
        invariant
            k <= requests@.len(),
            last_state_for(requests@, id@) == last_state_for(requests@.take(k as int), id@),
        decreases k,
    {
        let ghost pre = requests@.take(k as int);
        assert(pre.drop_last() =~= requests@.take(k - 1));
        if str_eq(requests[k - 1].light_id.as_str(), id) {
            return Some(k - 1);
        }
        k -= 1;
    }
    None
}

/// The lights of the grid once the bridge accepted a room's requests: each light takes
/// the state last requested for it.
pub fn apply_room_updates(lights: Vec<Light>, requests: &Vec<SetLightStateRequest>) -> (r: Vec<Light>)
    ensures
        r@.len() == lights@.len(),
        forall|i: int| 0 <= i < r@.len() ==> #[trigger] r@[i] == after_room_update(lights@[i], requests@),
{
    let ghost initial = lights@;
    let mut rest = lights;
    let mut out: Vec<Light> = Vec::new();
    while rest.len() > 0
        invariant
            out@.len() + rest@.len() == initial.len(),
            rest@ == initial.skip(out@.len() as int),
            forall|i: int| 0 <= i < out@.len() ==> #[trigger] out@[i] == after_room_update(initial[i], requests@),
        decreases rest.len(),
    {
        let ghost j = out@.len() as int;
        let mut light = rest.remove(0);
        assert(rest@ =~= initial.skip(j + 1));
        assert(light == initial[j]);
        match last_request_for(requests, light.id.as_str()) {
            Some(k) => apply_state_update(&mut light, &requests[k].state),
            None => {},
        }
        out.push(light);
    }
    out
}

/// The lights of the grid once the bridge accepted a state for the light `light_id`: the
/// first light with that identifier takes it.
pub fn apply_light_update(lights: &mut Vec<Light>, light_id: &str, state: &LightStateUpdate)
    ensures
        match index_of_light(old(lights)@, light_id@) {
            Some(i) => final(lights)@ == old(lights)@.update(i, applied_state(old(lights)@[i], *state)),
            None => final(lights)@ == old(lights)@,
        },
{
    match find_light(lights, light_id) {
        Some(i) => {
            let mut light = lights[i].duplicate();
            apply_state_update(&mut light, state);
            lights.set(i, light);
        },
        None => {},
    }
}

/// Whether every light reports that it is off or reports nothing.
pub open spec fn all_lights_off(lights: Seq<Light>) -> bool {
    forall|i: int| 0 <= i < lights.len() ==> (#[trigger] lights[i]).is_on != Some(true)
}

/// The state a room's switch sends: on when every light is off, else off, with a
/// transition of 3.
pub fn room_toggle_state(room_lights: &Vec<Light>) -> (r: LightStateUpdate)
    ensures
        r == (LightStateUpdate {
            on: Some(all_lights_off(room_lights@)),
            brightness: None,
            saturation: None,
            hue: None,
            transition_time: Some(3u16),
        }),
{
    let mut all_off = true;
    let mut i: usize = 0;
    while i < room_lights.len()
        invariant
            i <= room_lights@.len(),
            all_off == all_lights_off(room_lights@.take(i as int)),
        decreases room_lights.len() - i,
    {
        assert(room_lights@.take(i + 1).drop_last() =~= room_lights@.take(i as int));
        if room_lights[i].is_on == Some(true) {
            all_off = false;
        }
        proof {
            let t = room_lights@.take(i + 1);
            if all_off {
                assert forall|k: int| 0 <= k < t.len() implies (#[trigger] t[k]).is_on != Some(true) by {
                    if k < i {
                        assert(t[k] == room_lights@.take(i as int)[k]);
                    }
                }
            } else {
                if room_lights@[i as int].is_on == Some(true) {
                    assert(t[i as int] == room_lights@[i as int]);
                } else {
                    let w = choose|k: int| 0 <= k < i && (#[trigger] room_lights@.take(i as int)[k]).is_on == Some(true);
                    assert(t[w] == room_lights@.take(i as int)[w]);
                }
            }
        }
        i += 1;
    }
    assert(room_lights@.take(room_lights@.len() as int) =~= room_lights@);
    LightStateUpdate { on: Some(all_off), brightness: None, saturation: None, hue: None, transition_time: Some(3) }
}

/// The state a brightness control sends for a room or a light: on, at the chosen
/// brightness but at least 1, with a transition of 4.
pub fn brightness_state(brightness: u8) -> (r: LightStateUpdate)
    ensures
        r == (LightStateUpdate {
            on: Some(true),
            brightness: Some(if brightness == 0 { 1u8 } else { brightness }),
            saturation: None,
            hue: None,
            transition_time: Some(4u16),
        }),
{
    let b = if brightness == 0 {
        1
    } else {
        brightness
    };
    LightStateUpdate { on: Some(true), brightness: Some(b), saturation: None, hue: None, transition_time: Some(4) }
}

/// One request per light of a room, in order, each sending `state` to the bridge of
/// `connection`.
pub fn room_requests(connection: &BridgeConnection, room_lights: &Vec<Light>, state: LightStateUpdate) -> (r: Vec<
    SetLightStateRequest,
>)
    ensures
        r@.len() == room_lights@.len(),
        forall|i: int|
            0 <= i < r@.len() ==> {
                &&& (#[trigger] r@[i]).bridge_ip == connection.bridge_ip
                &&& r@[i].username == connection.username
                &&& r@[i].light_id == room_lights@[i].id
                &&& r@[i].state == state
            },
{
    let mut out: Vec<SetLightStateRequest> = Vec::new();
    let mut i: usize = 0;
    while i < room_lights.len()
        invariant
            i <= room_lights@.len(),
            out@.len() == i,
            forall|k: int|
                0 <= k < i ==> {
                    &&& (#[trigger] out@[k]).bridge_ip == connection.bridge_ip
                    &&& out@[k].username == connection.username
                    &&& out@[k].light_id == room_lights@[k].id
                    &&& out@[k].state == state
                },
        decreases room_lights.len() - i,
    {
        out.push(
            SetLightStateRequest {
                bridge_ip: connection.bridge_ip.clone(),
                username: connection.username.clone(),
                light_id: room_lights[i].id.clone(),
                state,
            },
        );
        i += 1;
    }
    out
}

/// What a room update comes to once its requests were sent in order, stopping at the
/// first that failed (`failure`): without a failure every light takes the last state
/// requested for it and a success notice under `success_title` is shown; after a failure
/// the lights stay as they were and the failure is reported.
pub fn finish_room_update(
    lights: Vec<Light>,
    requests: &Vec<SetLightStateRequest>,
    failure: Option<String>,
    success_title: &str,
) -> (r: (Vec<Light>, UiNotice))
    ensures
        failure is None ==> {
            &&& r.0@.len() == lights@.len()
            &&& forall|i: int| 0 <= i < r.0@.len() ==> #[trigger] r.0@[i] == after_room_update(lights@[i], requests@)
            &&& r.1.tone == NoticeTone::Success
            &&& r.1.title@ == success_title@
            &&& r.1.message@ == "The latest room change was accepted by the bridge."@
        },
        failure matches Some(e) ==> {
            &&& r.0@ == lights@
            &&& r.1.tone == NoticeTone::Error
            &&& r.1.title@ == "Room update failed"@
            &&& r.1.message == e
        },
{
    match failure {
        None => {
            let updated = apply_room_updates(lights, requests);
            let notice = UiNotice::success(
                owned(success_title),
                String::from_str("The latest room change was accepted by the bridge."),
            );
            (updated, notice)
        },
        Some(e) => (lights, UiNotice::error(String::from_str("Room update failed"), e)),
    }
}

/// The requests that put each light of a room into a curated scene's state, light by
/// light, for the bridge `connection`.
pub fn preset_light_requests(connection: &BridgeConnection, preset: CuratedScenePreset, room_lights: &Vec<Light>) -> (r: Vec<SetLightStateRequest>)
    requires
        forall|i: int| 0 <= i < room_lights@.len() ==> #[trigger] offset_fits(i, room_lights@.len() as int),
    ensures
        r@.len() == room_lights@.len(),
        forall|i: int|
            0 <= i < r@.len() ==> {
                &&& (#[trigger] r@[i]).bridge_ip == connection.bridge_ip
                &&& r@[i].username == connection.username
                &&& r@[i].light_id == room_lights@[i].id
                &&& r@[i].state == preset_state(preset.name@, light_offset_spec(i, room_lights@.len() as int))
            },
{
    let mut out: Vec<SetLightStateRequest> = Vec::new();
    let mut i: usize = 0;
    while i < room_lights.len()
        invariant
            i <= room_lights@.len(),
            out@.len() == i,
            forall|i: int| 0 <= i < room_lights@.len() ==> #[trigger] offset_fits(i, room_lights@.len() as int),
            forall|k: int|
                0 <= k < i ==> {
                    &&& (#[trigger] out@[k]).bridge_ip == connection.bridge_ip
                    &&& out@[k].username == connection.username
                    &&& out@[k].light_id == room_lights@[k].id
                    &&& out@[k].state == preset_state(preset.name@, light_offset_spec(k, room_lights@.len() as int))
                },
        decreases room_lights.len() - i,
    {
        assert(offset_fits(i as int, room_lights@.len() as int));
        let state = preset_light_state(preset, i, room_lights.len());
        out.push(
            SetLightStateRequest {
                bridge_ip: connection.bridge_ip.clone(),
                username: connection.username.clone(),
                light_id: room_lights[i].id.clone(),
                state,
            },
        );
        i += 1;
    }
    out
}

/// Snapshot requests addressed to the bridge `connection`, ready to restore the lights.
pub fn addressed_requests(states: Vec<SetLightStateRequest>, connection: &BridgeConnection) -> (r: Vec<SetLightStateRequest>)
    ensures
        r@.len() == states@.len(),
        forall|i: int|
            0 <= i < r@.len() ==> {
                &&& (#[trigger] r@[i]).bridge_ip == connection.bridge_ip
                &&& r@[i].username == connection.username
                &&& r@[i].light_id == states@[i].light_id
                &&& r@[i].state == states@[i].state
            },
{
    let ghost initial = states@;
    let mut rest = states;
    let mut out: Vec<SetLightStateRequest> = Vec::new();
    while rest.len() > 0
        invariant
            out@.len() + rest@.len() == initial.len(),
            rest@ == initial.skip(out@.len() as int),
            forall|i: int|
                0 <= i < out@.len() ==> {
                    &&& (#[trigger] out@[i]).bridge_ip == connection.bridge_ip
                    &&& out@[i].username == connection.username
                    &&& out@[i].light_id == initial[i].light_id
                    &&& out@[i].state == initial[i].state
                },
        decreases rest.len(),
    {
        let ghost j = out@.len() as int;
        let request = rest.remove(0);
        assert(rest@ =~= initial.skip(j + 1));
        assert(request == initial[j]);
        out.push(
            SetLightStateRequest {
                bridge_ip: connection.bridge_ip.clone(),
                username: connection.username.clone(),
                light_id: request.light_id,
                state: request.state,
            },
        );
    }
    out
}

} // verus!
