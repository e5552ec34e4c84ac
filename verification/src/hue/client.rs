//! What the bridge client computes around its HTTP exchanges: endpoints, request
//! validation, and the interpretation of bridge responses.
use vstd::prelude::*;
use crate::hue::config::{authenticated_base, HueBridgeConfig};
use crate::hue::error::{HueApiErrorBody, HueError};
use crate::hue::models::{
    CreateUserSuccessPayload, Group, HueApiResponse, HueLightStatePayload, Light, LightStateUpdate,
    RawHueGroup, RawHueLight, RawHueScene, RegisteredApp, Scene,
};
use crate::hue::order::{ByLightId, GroupByNameThenId, SceneByNameThenId};
use crate::sorting::{sort_by_order, sorted_by, stably_rearranged};
use crate::text::{decimal, has_prefix, owned, push_decimal, starts_with, trim, trim_spec};
use vstd::std_specs::convert::FromSpec;
use vstd::std_specs::convert::TryFromSpec;

verus! {

/// The error a bridge error body stands for.
pub open spec fn api_error(body: HueApiErrorBody) -> HueError {
    HueError::Api { code: body.error_type, address: body.address, description: body.description }
}

/// The payload of the first response, which must be a success.
pub fn extract_first_success<T>(responses: Vec<HueApiResponse<T>>) -> (r: Result<T, HueError>)
    ensures
        responses@.len() == 0 ==> (r matches Err(HueError::UnexpectedResponse(m)) && m@
            == "the bridge returned an empty success payload"@),
        responses@.len() > 0 ==> match responses@[0] {
            HueApiResponse::Success { success } => r == Ok::<T, HueError>(success),
            HueApiResponse::Error { error } => r == Err::<T, HueError>(api_error(error)),
        },
{
    let mut responses = responses;
    if responses.len() > 0 {
        let first = responses.remove(0);
        return match first {
            HueApiResponse::Success { success } => Ok(success),
            HueApiResponse::Error { error } => Err(HueError::from(error)),
        };
    }
    Err(HueError::UnexpectedResponse(String::from_str("the bridge returned an empty success payload")))
}

/// Finds the first error response: `None` when every response is a success.
fn find_first_error<T>(responses: &Vec<HueApiResponse<T>>) -> (r: Option<usize>)
    ensures
        r matches Some(i) ==> i < responses@.len() && responses@[i as int] is Error && forall|k: int|
            0 <= k < i ==> !(responses@[k] is Error),
        r is None ==> forall|k: int| 0 <= k < responses@.len() ==> !(responses@[k] is Error),
{
    let mut i: usize = 0;
    while i < responses.len()
        invariant
            i <= responses@.len(),
            forall|k: int| 0 <= k < i ==> !(responses@[k] is Error),
        decreases responses.len() - i,
    {
        if let HueApiResponse::Error { .. } = &responses[i] {
            return Some(i);
        }
        i += 1;
    }
    None
}

/// Accepts a state-change response only when it is non-empty and holds no error;
/// otherwise reports the first error.
pub fn ensure_success_only<T>(responses: Vec<HueApiResponse<T>>) -> (r: Result<(), HueError>)
    ensures
        responses@.len() == 0 ==> (r matches Err(HueError::UnexpectedResponse(m)) && m@
            == "the bridge returned an empty state update response"@),
        responses@.len() > 0 ==> (r is Ok <==> forall|k: int|
            0 <= k < responses@.len() ==> !(responses@[k] is Error)),
        responses@.len() > 0 ==> forall|i: int|
            0 <= i < responses@.len() && responses@[i] is Error && (forall|k: int|
                0 <= k < i ==> !(responses@[k] is Error)) ==> r == Err::<(), HueError>(
                api_error(responses@[i]->error),
            ),
{
    if responses.len() == 0 {
        return Err(
            HueError::UnexpectedResponse(
                String::from_str("the bridge returned an empty state update response"),
            ),
        );
    }
    match find_first_error(&responses) {
        Some(i) => {
            let mut responses = responses;
            let ghost rs = responses@;
            let picked = responses.remove(i);
            match picked {
                HueApiResponse::Error { error } => {
                    proof {
                        assert forall|j: int|
                            0 <= j < rs.len() && rs[j] is Error && (forall|k: int|
                                0 <= k < j ==> !(rs[k] is Error)) implies j == i by {
                            if j < i {
                            } else if j > i {
                                assert(!(rs[i as int] is Error));
                            }
                        }
                    }
                    Err(HueError::from(error))
                },
                HueApiResponse::Success { .. } => Ok(()),
            }
        },
        None => Ok(()),
    }
}

/// The value of the first entry whose key starts with `/scenes/`.
pub open spec fn first_scene_entry(entries: Seq<(String, String)>) -> Option<String>
    decreases entries.len(),
{
    if entries.len() == 0 {
        None
    } else if has_prefix(entries[0].0@, "/scenes/"@) {
        Some(entries[0].1)
    } else {
        first_scene_entry(entries.drop_first())
    }
}

/// Outcome of scanning a scene creation response: the created identifier, the first
/// reported error, or `None` when neither occurs.
pub open spec fn scan_created_scene(responses: Seq<HueApiResponse<Vec<(String, String)>>>) -> Option<
    Result<String, HueApiErrorBody>,
>
    decreases responses.len(),
{
    if responses.len() == 0 {
        None
    } else {
        match responses[0] {
            HueApiResponse::Success { success } => match first_scene_entry(success@) {
                Some(id) => Some(Ok(id)),
                None => scan_created_scene(responses.drop_first()),
            },
            HueApiResponse::Error { error } => Some(Err(error)),
        }
    }
}

fn find_scene_entry(entries: Vec<(String, String)>) -> (r: Option<String>)
    ensures
        r == first_scene_entry(entries@),
{
    let mut rest = entries;
    while rest.len() > 0
        invariant
            first_scene_entry(rest@) == first_scene_entry(entries@),
        decreases rest.len(),
    {
        let ghost before = rest@;
        let (key, value) = rest.remove(0);
        assert(rest@ == before.drop_first());
        if starts_with(key.as_str(), "/scenes/") {
            return Some(value);
        }
    }
    None
}

/// Identifier of a newly created scene, read from the bridge's creation response.
pub fn extract_created_scene_id(responses: Vec<HueApiResponse<Vec<(String, String)>>>) -> (r: Result<
    String,
    HueError,
>)
    ensures
        responses@.len() == 0 ==> (r matches Err(HueError::UnexpectedResponse(m)) && m@
            == "the bridge returned an empty scene creation response"@),
        responses@.len() > 0 ==> match scan_created_scene(responses@) {
            Some(Ok(id)) => r == Ok::<String, HueError>(id),
            Some(Err(body)) => r == Err::<String, HueError>(api_error(body)),
            None => (r matches Err(HueError::UnexpectedResponse(m)) && m@
                == "the bridge did not report a created scene identifier"@),
        },
{
    if responses.len() == 0 {
        return Err(
            HueError::UnexpectedResponse(
                String::from_str("the bridge returned an empty scene creation response"),
            ),
        );
    }
    let ghost all = responses@;
    let mut rest = responses;
    while rest.len() > 0
        invariant
            scan_created_scene(rest@) == scan_created_scene(all),
            all == responses@,
            all.len() > 0,
        decreases rest.len(),
    {
        let ghost before = rest@;
        let response = rest.remove(0);
        assert(rest@ == before.drop_first());
        match response {
            HueApiResponse::Success { success } => {
                if let Some(id) = find_scene_entry(success) {
                    return Ok(id);
                }
            },
            HueApiResponse::Error { error } => {
                return Err(HueError::from(error));
            },
        }
    }
    Err(
        HueError::UnexpectedResponse(
            String::from_str("the bridge did not report a created scene identifier"),
        ),
    )
}

/// The error carried by a response body that did not decode as the expected payload.
/// `decoded` is that body read as a list of bridge responses, or `None` when it is not one.
pub fn extract_api_error<T>(decoded: Option<Vec<HueApiResponse<T>>>) -> (r: HueError)
    ensures
        decoded is None ==> (r matches HueError::UnexpectedResponse(m) && m@
            == "unable to decode the bridge response body"@),
        decoded matches Some(rs) ==> ((forall|k: int| 0 <= k < rs@.len() ==> !(rs@[k] is Error))
            ==> (r matches HueError::UnexpectedResponse(m) && m@
            == "the bridge returned an unsupported response body"@)),
        decoded matches Some(rs) ==> forall|i: int|
            0 <= i < rs@.len() && rs@[i] is Error && (forall|k: int|
                0 <= k < i ==> !(rs@[k] is Error)) ==> r == api_error(rs@[i]->error),
{
    match decoded {
        None => HueError::UnexpectedResponse(String::from_str("unable to decode the bridge response body")),
        Some(responses) => match find_first_error(&responses) {
            Some(i) => {
                let mut responses = responses;
                let ghost rs = responses@;
                let picked = responses.remove(i);
                match picked {
                    HueApiResponse::Error { error } => {
                        proof {
                            assert forall|j: int|
                                0 <= j < rs.len() && rs[j] is Error && (forall|k: int|
                                    0 <= k < j ==> !(rs[k] is Error)) implies j == i by {
                                if j > i {
                                    assert(!(rs[i as int] is Error));
                                }
                            }
                        }
                        HueError::from(error)
                    },
                    HueApiResponse::Success { .. } => HueError::UnexpectedResponse(
                        String::from_str("the bridge returned an unsupported response body"),
                    ),
                }
            },
            None => HueError::UnexpectedResponse(
                String::from_str("the bridge returned an unsupported response body"),
            ),
        },
    }
}

/// The lights of a `/lights` response, ordered by identifier.
pub fn lights_from_response(entries: Vec<(String, RawHueLight)>) -> (r: Vec<Light>)
    ensures
        r@.to_multiset() == entries@.map_values(|e: (String, RawHueLight)| Light::from_spec(e)).to_multiset(),
        sorted_by::<Light, ByLightId>(r@),
        stably_rearranged::<Light, ByLightId>(
            entries@.map_values(|e: (String, RawHueLight)| Light::from_spec(e)),
            r@,
        ),
{
    let ghost all = entries@;
    let mut rest = entries;
    let mut mapped: Vec<Light> = Vec::new();
    while rest.len() > 0
        invariant
            mapped@.len() + rest@.len() == all.len(),
            rest@ == all.skip(mapped@.len() as int),
            mapped@ == all.take(mapped@.len() as int).map_values(|e: (String, RawHueLight)| Light::from_spec(e)),
        decreases rest.len(),
    {
        let ghost k = mapped@.len() as int;
        let entry = rest.remove(0);
        mapped.push(Light::from(entry));
        proof {
            assert(all.take(k + 1) == all.take(k).push(entry));
            assert(rest@ == all.skip(k + 1));
            assert(mapped@ == all.take(k + 1).map_values(|e: (String, RawHueLight)| Light::from_spec(e)));
        }
    }
    assert(all.take(all.len() as int) == all);
    sort_by_order::<Light, ByLightId>(mapped)
}


/// The scenes of a `/scenes` response that are not marked for recycling, in response order.
pub fn scenes_from_response(entries: Vec<(String, RawHueScene)>) -> (r: Vec<Scene>)
    ensures
        r@ == entries@.filter(|e: (String, RawHueScene)| !e.1.recycle).map_values(
            |e: (String, RawHueScene)| Scene::from_spec(e),
        ),
{
    broadcast use vstd::seq::Seq::lemma_filter_push;

    let ghost all = entries@;
    let ghost keep = |e: (String, RawHueScene)| !e.1.recycle;
    let ghost conv = |e: (String, RawHueScene)| Scene::from_spec(e);
    let mut rest = entries;
    let mut out: Vec<Scene> = Vec::new();
    let ghost mut k: int = 0;
    while rest.len() > 0
        invariant
            0 <= k <= all.len(),
            rest@ == all.skip(k),
            out@ == all.take(k).filter(keep).map_values(conv),
            keep == (|e: (String, RawHueScene)| !e.1.recycle),
            conv == (|e: (String, RawHueScene)| Scene::from_spec(e)),
        decreases rest.len(),
    {
        let entry = rest.remove(0);
        proof {
            assert(all.take(k + 1) == all.take(k).push(entry));
            assert(rest@ == all.skip(k + 1));
        }
        let ghost e = entry;
        let ghost before_out = out@;
        if !entry.1.recycle {
            out.push(Scene::from(entry));
        }
        proof {
            if keep(e) {
                assert(out@ == before_out.push(conv(e)));
            } else {
                assert(out@ == before_out);
            }
            let prev = all.take(k);
            prev.lemma_filter_push(entry, keep);
            assert(all.take(k + 1).filter(keep) == if keep(entry) {
                prev.filter(keep).push(entry)
            } else {
                prev.filter(keep)
            });
            assert(prev.filter(keep).push(entry).map_values(conv) =~= prev.filter(keep).map_values(
                conv,
            ).push(conv(entry)));
            k = k + 1;
            assert(out@ == all.take(k).filter(keep).map_values(conv));
        }
    }
    assert(all.take(k) == all);
    out
}

/// Scenes ordered by name, then identifier.
pub fn sort_scenes(scenes: Vec<Scene>) -> (r: Vec<Scene>)
    ensures
        r@.to_multiset() == scenes@.to_multiset(),
        sorted_by::<Scene, SceneByNameThenId>(r@),
        stably_rearranged::<Scene, SceneByNameThenId>(scenes@, r@),
{
    sort_by_order::<Scene, SceneByNameThenId>(scenes)
}

/// The rooms and zones of a `/groups` response, ordered by name, then identifier.
pub fn groups_from_response(entries: Vec<(String, RawHueGroup)>) -> (r: Vec<Group>)
    ensures
        r@.to_multiset() == entries@.filter(
            |e: (String, RawHueGroup)| Group::try_from_spec(e) is Ok,
        ).map_values(|e: (String, RawHueGroup)| Group::try_from_spec(e)->Ok_0).to_multiset(),
        sorted_by::<Group, GroupByNameThenId>(r@),
        stably_rearranged::<Group, GroupByNameThenId>(
            entries@.filter(|e: (String, RawHueGroup)| Group::try_from_spec(e) is Ok).map_values(
                |e: (String, RawHueGroup)| Group::try_from_spec(e)->Ok_0,
            ),
            r@,
        ),
{
    broadcast use vstd::seq::Seq::lemma_filter_push;

    let ghost all = entries@;
    let ghost keep = |e: (String, RawHueGroup)| Group::try_from_spec(e) is Ok;
    let ghost conv = |e: (String, RawHueGroup)| Group::try_from_spec(e)->Ok_0;
    let mut rest = entries;
    let mut out: Vec<Group> = Vec::new();
    let ghost mut k: int = 0;
    while rest.len() > 0
        invariant
            0 <= k <= all.len(),
            rest@ == all.skip(k),
            out@ == all.take(k).filter(keep).map_values(conv),
            keep == (|e: (String, RawHueGroup)| Group::try_from_spec(e) is Ok),
            conv == (|e: (String, RawHueGroup)| Group::try_from_spec(e)->Ok_0),
        decreases rest.len(),
    {
        let entry = rest.remove(0);
        proof {
            assert(all.take(k + 1) == all.take(k).push(entry));
            assert(rest@ == all.skip(k + 1));
        }
        let converted = Group::try_from(entry);
        if let Ok(group) = converted {
            out.push(group);
        }
        proof {
            let prev = all.take(k);
            prev.lemma_filter_push(entry, keep);
            assert(all.take(k + 1).filter(keep) == if keep(entry) {
                prev.filter(keep).push(entry)
            } else {
                prev.filter(keep)
            });
            assert(prev.filter(keep).push(entry).map_values(conv) =~= prev.filter(keep).map_values(
                conv,
            ).push(conv(entry)));
            k = k + 1;
            assert(out@ == all.take(k).filter(keep).map_values(conv));
        }
    }
    assert(all.take(k) == all);
    sort_by_order::<Group, GroupByNameThenId>(out)
}

/// Preview colors of a scene, as CSS colors.
#[derive(Clone, Debug, PartialEq, Eq)]
pub struct ScenePreview {
    pub soft: String,
    pub main: String,
    pub deep: String,
}

/// A scene with the preview colors set, when a preview could be derived.
pub fn with_preview(scene: Scene, preview: Option<ScenePreview>) -> (r: Scene)
    ensures
        preview is None ==> r == scene,
        preview matches Some(p) ==> r == (Scene {
            preview_color_soft: Some(p.soft),
            preview_color_main: Some(p.main),
            preview_color_deep: Some(p.deep),
            ..scene
        }),
{
    let mut scene = scene;
    if let Some(p) = preview {
        scene.preview_color_soft = Some(p.soft);
        scene.preview_color_main = Some(p.main);
        scene.preview_color_deep = Some(p.deep);
    }
    scene
}

/// `<authenticated base>/<collection>`, the endpoint of a bridge collection such as `lights`.
pub fn collection_endpoint(config: &HueBridgeConfig, collection: &str) -> (r: Result<String, HueError>)
    ensures
        config@.1 is None ==> r == Err::<String, HueError>(HueError::MissingUsername),
        r matches Ok(u) ==> u@ == authenticated_base(config@) + "/"@ + collection@,
        config@.1 is Some ==> r is Ok,
{
    let base = config.authenticated_api_base_url()?;
    Ok(base.concat("/").concat(collection))
}

/// Endpoint of one scene: `<authenticated base>/scenes/<scene id>`.
pub fn scene_endpoint(config: &HueBridgeConfig, scene_id: &str) -> (r: Result<String, HueError>)
    ensures
        config@.1 is None ==> r == Err::<String, HueError>(HueError::MissingUsername),
        r matches Ok(u) ==> u@ == authenticated_base(config@) + "/scenes/"@ + scene_id@,
        config@.1 is Some ==> r is Ok,
{
    let base = config.authenticated_api_base_url()?;
    Ok(base.concat("/scenes/").concat(scene_id))
}

/// Registration request: the URL to post to and the trimmed device type, which must not
/// be empty.
pub fn create_user_request(config: &HueBridgeConfig, device_type: &str) -> (r: Result<
    (String, String),
    HueError,
>)
    ensures
        trim_spec(device_type@).len() == 0 ==> (r matches Err(HueError::InvalidConfig(m)) && m@
            == "device type is required"@),
        trim_spec(device_type@).len() != 0 ==> (r matches Ok((url, dt)) && url@ == "https://"@
            + config@.0 + "/api"@ && dt@ == trim_spec(device_type@)),
{
    let device_type = trim(device_type);
    if device_type.unicode_len() == 0 {
        return Err(HueError::InvalidConfig(String::from_str("device type is required")));
    }
    Ok((config.api_base_url(), owned(device_type)))
}

/// The registered application that a successful registration describes.
pub fn registered_app_from(created: CreateUserSuccessPayload) -> (r: RegisteredApp)
    ensures
        r.username == created.username,
        r.client_key == created.clientkey,
{
    RegisteredApp { username: created.username, client_key: created.clientkey }
}

/// A light state change: the endpoint and the payload.  The light identifier is trimmed
/// and must not be empty, and at least one state field must be present.
pub fn light_state_request(config: &HueBridgeConfig, light_id: &str, state: &LightStateUpdate) -> (r:
    Result<(String, HueLightStatePayload), HueError>)
    ensures
        trim_spec(light_id@).len() == 0 ==> (r matches Err(HueError::InvalidConfig(m)) && m@
            == "light ID is required"@),
        trim_spec(light_id@).len() != 0 && state.on is None && state.brightness is None
            && state.saturation is None && state.hue is None && state.transition_time is None ==> (
        r matches Err(HueError::InvalidConfig(m)) && m@ == "at least one light state field is required"@),
        r is Ok ==> config@.1 is Some,
        r matches Ok((url, payload)) ==> url@ == authenticated_base(config@)
            + "/lights/"@ + trim_spec(light_id@) + "/state"@ && payload == state.to_payload_spec(),
        trim_spec(light_id@).len() != 0 && !state.to_payload_spec().is_empty_spec() ==> (
        config@.1 is None <==> r == Err::<(String, HueLightStatePayload), HueError>(
            HueError::MissingUsername,
        )),
        trim_spec(light_id@).len() != 0 && !state.to_payload_spec().is_empty_spec()
            && config@.1 is Some ==> r is Ok,
{
    let light_id = trim(light_id);
    if light_id.unicode_len() == 0 {
        return Err(HueError::InvalidConfig(String::from_str("light ID is required")));
    }
    let payload = state.to_payload();
    if payload.is_empty() {
        return Err(
            HueError::InvalidConfig(String::from_str("at least one light state field is required")),
        );
    }
    let base = config.authenticated_api_base_url()?;
    Ok((base.concat("/lights/").concat(light_id).concat("/state"), payload))
}

/// Scene activation: the endpoint of the group action (group `0` when no group is given)
/// and the trimmed scene identifier, which must not be empty.
pub fn activate_scene_request(config: &HueBridgeConfig, scene_id: &str, group_id: Option<&str>) -> (r:
    Result<(String, String), HueError>)
    ensures
        trim_spec(scene_id@).len() == 0 ==> (r matches Err(HueError::InvalidConfig(m)) && m@
            == "scene ID is required"@),
        trim_spec(scene_id@).len() != 0 && config@.1 is None ==> r == Err::<(String, String), HueError>(
            HueError::MissingUsername,
        ),
        trim_spec(scene_id@).len() != 0 && config@.1 is Some ==> (r matches Ok((url, id)) && url@
            == authenticated_base(config@) + "/groups/"@ + (match group_id {
            Some(g) => g@,
            None => "0"@,
        }) + "/action"@ && id@ == trim_spec(scene_id@)),
{
    let scene_id = trim(scene_id);
    if scene_id.unicode_len() == 0 {
        return Err(HueError::InvalidConfig(String::from_str("scene ID is required")));
    }
    let base = config.authenticated_api_base_url()?;
    let group = match group_id {
        Some(g) => g,
        None => "0",
    };
    Ok((base.concat("/groups/").concat(group).concat("/action"), owned(scene_id)))
}

/// A validated scene creation: endpoint, trimmed group identifier and trimmed scene name.
#[derive(Clone, Debug, PartialEq, Eq)]
pub struct CreateScenePlan {
    pub endpoint: String,
    pub group_id: String,
    pub scene_name: String,
}

/// Validates a scene creation: the group identifier and the name, trimmed, must not be
/// empty, and at least one light is needed.
pub fn create_scene_request(
    config: &HueBridgeConfig,
    group_id: &str,
    scene_name: &str,
    light_ids: &[String],
) -> (r: Result<CreateScenePlan, HueError>)
    ensures
        trim_spec(group_id@).len() == 0 ==> (r matches Err(HueError::InvalidConfig(m)) && m@
            == "group ID is required"@),
        trim_spec(group_id@).len() != 0 && trim_spec(scene_name@).len() == 0 ==> (r matches Err(
            HueError::InvalidConfig(m),
        ) && m@ == "scene name is required"@),
        trim_spec(group_id@).len() != 0 && trim_spec(scene_name@).len() != 0 && light_ids@.len()
            == 0 ==> (r matches Err(HueError::InvalidConfig(m)) && m@
            == "at least one light is required to create a scene"@),
        trim_spec(group_id@).len() != 0 && trim_spec(scene_name@).len() != 0 && light_ids@.len()
            != 0 ==> (config@.1 is None <==> r == Err::<CreateScenePlan, HueError>(
            HueError::MissingUsername,
        )),
        r matches Ok(plan) ==> trim_spec(group_id@).len() != 0 && trim_spec(scene_name@).len() != 0
            && light_ids@.len() != 0 && config@.1 is Some && plan.endpoint@
            == authenticated_base(config@) + "/"@ + "scenes"@ && plan.group_id@ == trim_spec(
            group_id@,
        ) && plan.scene_name@ == trim_spec(scene_name@),
        trim_spec(group_id@).len() != 0 && trim_spec(scene_name@).len() != 0 && light_ids@.len()
            != 0 && config@.1 is Some ==> r is Ok,
{
    let group_id = trim(group_id);
    if group_id.unicode_len() == 0 {
        return Err(HueError::InvalidConfig(String::from_str("group ID is required")));
    }
    let scene_name = trim(scene_name);
    if scene_name.unicode_len() == 0 {
        return Err(HueError::InvalidConfig(String::from_str("scene name is required")));
    }
    if light_ids.len() == 0 {
        return Err(
            HueError::InvalidConfig(
                String::from_str("at least one light is required to create a scene"),
            ),
        );
    }
    let endpoint = collection_endpoint(config, "scenes")?;
    Ok(CreateScenePlan { endpoint, group_id: owned(group_id), scene_name: owned(scene_name) })
}

/// The scene that a completed creation describes.
pub fn created_scene(plan: CreateScenePlan, scene_id: String, light_count: usize, preview: Option<
    ScenePreview,
>) -> (r: Scene)
    ensures
        r.id == scene_id,
        r.name == plan.scene_name,
        r.group_id == Some(plan.group_id),
        r.light_count == light_count,
        r.scene_type matches Some(t) && t@ == "GroupScene"@,
        preview is None ==> r.preview_color_soft is None && r.preview_color_main is None
            && r.preview_color_deep is None,
        preview matches Some(p) ==> r.preview_color_soft == Some(p.soft) && r.preview_color_main
            == Some(p.main) && r.preview_color_deep == Some(p.deep),
{
    let scene = Scene {
        id: scene_id,
        name: plan.scene_name,
        group_id: Some(plan.group_id),
        light_count,
        scene_type: Some(String::from_str("GroupScene")),
        preview_color_soft: None,
        preview_color_main: None,
        preview_color_deep: None,
    };
    with_preview(scene, preview)
}

} // verus!
