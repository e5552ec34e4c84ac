//! Data exchanged with the Hue bridge and with the user interface.
//!
//! Values that the bridge reports as floating-point numbers (CIE xy coordinates and
//! entertainment channel positions) are carried as the bit patterns of their `f32`
//! values: the library passes them through and never computes with them.
use vstd::prelude::*;
use crate::json::JsonValue;

verus! {

#[derive(Clone, Debug, PartialEq, Eq)]
pub struct DiscoveredBridge {
    pub id: String,
    pub internal_ip_address: String,
}

#[derive(Clone, Debug, PartialEq, Eq)]
pub struct BridgeConnection {
    pub bridge_ip: String,
    pub username: String,
    pub client_key: Option<String>,
    pub application_id: Option<String>,
}

#[derive(Clone, Debug, PartialEq, Eq)]
pub struct CreateUserRequest {
    pub bridge_ip: String,
    pub device_type: String,
}

#[derive(Clone, Debug, PartialEq, Eq)]
pub struct RegisteredApp {
    pub username: String,
    pub client_key: Option<String>,
}

#[derive(Clone, Debug, PartialEq, Eq)]
pub struct EntertainmentArea {
    pub id: String,
    pub name: String,
    pub configuration_type: Option<String>,
    pub status: String,
    pub channels: Vec<EntertainmentChannel>,
    pub light_ids: Vec<String>,
}

#[derive(Clone, Debug, PartialEq, Eq)]
pub struct EntertainmentChannel {
    pub channel_id: u8,
    pub position: EntertainmentPosition,
}

/// A channel position; each coordinate is the bit pattern of an `f32`.
#[derive(Clone, Copy, Debug, PartialEq, Eq)]
pub struct EntertainmentPosition {
    pub x_bits: u32,
    pub y_bits: u32,
    pub z_bits: u32,
}

#[derive(Clone, Debug, PartialEq, Eq)]
pub struct Automation {
    pub id: String,
    pub name: String,
    pub enabled: Option<bool>,
    pub automation_type: Option<String>,
    pub script_id: Option<String>,
}

#[derive(Debug, PartialEq, Eq)]
pub struct AutomationConfigEntry {
    pub key: String,
    pub value: AutomationConfigValue,
}

#[derive(Debug, PartialEq, Eq)]
pub enum AutomationConfigValue {
    Object(Vec<AutomationConfigEntry>),
    Array(Vec<AutomationConfigValue>),
    String(String),
    Number(String),
    Bool(bool),
    Null,
}

#[derive(Debug, PartialEq, Eq)]
pub struct AutomationDetail {
    pub id: String,
    pub name: String,
    pub enabled: Option<bool>,
    pub automation_type: Option<String>,
    pub script_id: Option<String>,
    pub script_name: Option<String>,
    pub script_type: Option<String>,
    pub configuration: Option<AutomationConfigValue>,
    pub instance_json: String,
    pub script_json: Option<String>,
}

#[derive(Clone, Debug, PartialEq, Eq)]
pub struct SetAutomationEnabledRequest {
    pub connection: BridgeConnection,
    pub automation_id: String,
    pub enabled: bool,
}

#[derive(Debug, PartialEq, Eq)]
pub struct UpdateAutomationRequest {
    pub connection: BridgeConnection,
    pub automation_id: String,
    pub name: String,
    pub enabled: Option<bool>,
    pub configuration: Option<AutomationConfigValue>,
}

#[derive(Clone, Debug, PartialEq, Eq)]
pub struct AudioSyncStartRequest {
    pub connection: BridgeConnection,
    pub entertainment_area_id: String,
    pub pipewire_target_object: Option<String>,
    pub speed_mode: AudioSyncSpeedMode,
    pub color_palette: AudioSyncColorPalette,
    pub base_color_hex: Option<String>,
    pub brightness_ceiling: Option<u8>,
}

#[derive(Clone, Debug, PartialEq, Eq)]
pub struct AudioSyncUpdateRequest {
    pub speed_mode: AudioSyncSpeedMode,
    pub color_palette: AudioSyncColorPalette,
    pub base_color_hex: Option<String>,
    pub brightness_ceiling: Option<u8>,
}

#[derive(Clone, Debug, PartialEq, Eq)]
pub struct AudioSyncStartResult {
    pub connection: BridgeConnection,
    pub entertainment_area_id: String,
}

#[derive(Clone, Copy, Debug, PartialEq, Eq, Structural)]
pub enum AudioSyncSpeedMode {
    Slow,
    Medium,
    High,
}

impl Default for AudioSyncSpeedMode {
    fn default() -> (r: Self)
        ensures
            r == AudioSyncSpeedMode::Medium,
    {
        AudioSyncSpeedMode::Medium
    }
}

#[derive(Clone, Copy, Debug, PartialEq, Eq, Structural)]
pub enum AudioSyncColorPalette {
    CurrentRoom,
    Sunset,
    Aurora,
    Ocean,
    Rose,
    Mono,
    NeonPulse,
    Prism,
    VocalGlow,
    FireIce,
}

impl Default for AudioSyncColorPalette {
    fn default() -> (r: Self)
        ensures
            r == AudioSyncColorPalette::CurrentRoom,
    {
        AudioSyncColorPalette::CurrentRoom
    }
}

#[derive(Clone, Debug, PartialEq, Eq)]
pub struct PipeWireOutputTarget {
    pub target_object: String,
    pub name: String,
    pub description: String,
    pub media_class: String,
}

/// A light as the bridge reports it; `xy_bits` holds the bit patterns of the CIE x and y.
#[derive(Clone, Debug, PartialEq, Eq)]
pub struct Light {
    pub id: String,
    pub name: String,
    pub is_on: Option<bool>,
    pub brightness: Option<u8>,
    pub saturation: Option<u8>,
    pub hue: Option<u16>,
    pub xy_bits: Option<[u32; 2]>,
    pub reachable: Option<bool>,
    pub light_type: Option<String>,
    pub model_id: Option<String>,
}

impl Light {
    /// An equal copy of the light.
    pub fn duplicate(&self) -> (r: Light)
        ensures
            r == *self,
    {
        Light {
            id: self.id.clone(),
            name: self.name.clone(),
            is_on: self.is_on,
            brightness: self.brightness,
            saturation: self.saturation,
            hue: self.hue,
            xy_bits: self.xy_bits,
            reachable: self.reachable,
            light_type: match &self.light_type {
                Some(t) => Some(t.clone()),
                None => None,
            },
            model_id: match &self.model_id {
                Some(m) => Some(m.clone()),
                None => None,
            },
        }
    }
}

#[derive(Clone, Debug, PartialEq, Eq)]
pub struct Sensor {
    pub id: String,
    pub name: String,
    pub sensor_type: Option<String>,
    pub model_id: Option<String>,
    pub reachable: Option<bool>,
    pub battery: Option<u8>,
    pub last_updated: Option<String>,
    pub summary: Option<String>,
}

#[derive(Clone, Copy, Debug, PartialEq, Eq, Structural)]
pub struct LightStateUpdate {
    pub on: Option<bool>,
    pub brightness: Option<u8>,
    pub saturation: Option<u8>,
    pub hue: Option<u16>,
    pub transition_time: Option<u16>,
}

#[derive(Clone, Debug, PartialEq, Eq)]
pub struct SetLightStateRequest {
    pub bridge_ip: String,
    pub username: String,
    pub light_id: String,
    pub state: LightStateUpdate,
}

#[derive(Clone, Debug, PartialEq, Eq)]
pub struct Scene {
    pub id: String,
    pub name: String,
    pub group_id: Option<String>,
    pub light_count: usize,
    pub scene_type: Option<String>,
    pub preview_color_soft: Option<String>,
    pub preview_color_main: Option<String>,
    pub preview_color_deep: Option<String>,
}

impl Scene {
    /// An equal copy of the scene.
    pub fn duplicate(&self) -> (r: Scene)
        ensures
            r == *self,
    {
        Scene {
            id: self.id.clone(),
            name: self.name.clone(),
            group_id: copy_opt_string(&self.group_id),
            light_count: self.light_count,
            scene_type: copy_opt_string(&self.scene_type),
            preview_color_soft: copy_opt_string(&self.preview_color_soft),
            preview_color_main: copy_opt_string(&self.preview_color_main),
            preview_color_deep: copy_opt_string(&self.preview_color_deep),
        }
    }
}

/// An equal copy of an optional string.
pub fn copy_opt_string(o: &Option<String>) -> (r: Option<String>)
    ensures
        r == *o,
{
    match o {
        Some(s) => Some(s.clone()),
        None => None,
    }
}

#[derive(Clone, Debug, PartialEq, Eq)]
pub struct ActivateSceneRequest {
    pub bridge_ip: String,
    pub username: String,
    pub scene_id: String,
    pub group_id: Option<String>,
}

#[derive(Clone, Debug, PartialEq, Eq)]
pub struct DeleteSceneRequest {
    pub bridge_ip: String,
    pub username: String,
    pub scene_id: String,
}

#[derive(Clone, Debug, PartialEq, Eq)]
pub struct CreateSceneRequest {
    pub bridge_ip: String,
    pub username: String,
    pub group_id: String,
    pub scene_name: String,
    pub light_ids: Vec<String>,
}

#[derive(Clone, Debug, PartialEq, Eq)]
pub struct Group {
    pub id: String,
    pub name: String,
    pub kind: GroupKind,
    pub light_ids: Vec<String>,
}

impl Group {
    /// Two groups with the same fields.
    pub open spec fn same_as(self, other: Group) -> bool {
        &&& self.id == other.id
        &&& self.name == other.name
        &&& self.kind == other.kind
        &&& self.light_ids@ == other.light_ids@
    }

    /// A copy of the group.
    pub fn duplicate(&self) -> (r: Group)
        ensures
            r.same_as(*self),
    {
        Group {
            id: self.id.clone(),
            name: self.name.clone(),
            kind: self.kind,
            light_ids: crate::text::copy_strings(&self.light_ids),
        }
    }
}

#[derive(Clone, Copy, Debug, PartialEq, Eq, Structural)]
pub enum GroupKind {
    Room,
    Zone,
}

/// One element of a bridge response array: a success payload or an error.
#[derive(Clone, Debug, PartialEq, Eq)]
pub enum HueApiResponse<T> {
    Success { success: T },
    Error { error: crate::hue::error::HueApiErrorBody },
}

/// Payload of a successful user registration.
#[derive(Clone, Debug, PartialEq, Eq)]
pub struct CreateUserSuccessPayload {
    pub username: String,
    pub clientkey: Option<String>,
}

#[derive(Clone, Debug, PartialEq, Eq)]
pub struct RawHueLight {
    pub name: String,
    pub state: RawHueLightState,
    pub light_type: Option<String>,
    pub modelid: Option<String>,
}

#[derive(Clone, Debug, PartialEq, Eq)]
pub struct RawHueLightState {
    pub on: Option<bool>,
    pub bri: Option<u8>,
    pub sat: Option<u8>,
    pub hue: Option<u16>,
    pub xy_bits: Option<[u32; 2]>,
    pub reachable: Option<bool>,
}

#[derive(Debug, PartialEq, Eq)]
pub struct RawHueSensor {
    pub name: String,
    pub sensor_type: Option<String>,
    pub modelid: Option<String>,
    pub state: JsonValue,
    pub config: JsonValue,
}

#[derive(Clone, Debug, PartialEq, Eq)]
pub struct RawHueScene {
    pub name: String,
    pub group: Option<String>,
    pub lights: Vec<String>,
    pub scene_type: Option<String>,
    pub recycle: bool,
}

#[derive(Clone, Debug, PartialEq, Eq)]
pub struct RawHueSceneLightState {
    pub on: Option<bool>,
    pub bri: Option<u8>,
    pub xy_bits: Option<[u32; 2]>,
    pub sat: Option<u8>,
    pub hue: Option<u16>,
}

#[derive(Clone, Debug, PartialEq, Eq)]
pub struct RawHueGroup {
    pub name: String,
    pub lights: Vec<String>,
    pub group_type: String,
}

/// The body of a light state change: only the fields that are present are sent.
#[derive(Clone, Copy, Debug, PartialEq, Eq, Structural)]
pub struct HueLightStatePayload {
    pub on: Option<bool>,
    pub brightness: Option<u8>,
    pub saturation: Option<u8>,
    pub hue: Option<u16>,
    pub transition_time: Option<u16>,
}

impl LightStateUpdate {
    pub open spec fn to_payload_spec(&self) -> HueLightStatePayload {
        HueLightStatePayload {
            on: self.on,
            brightness: self.brightness,
            saturation: self.saturation,
            hue: self.hue,
            transition_time: self.transition_time,
        }
    }

    /// The bridge payload carrying the same fields.
    pub fn to_payload(&self) -> (r: HueLightStatePayload)
        ensures
            r.on == self.on,
            r.brightness == self.brightness,
            r.saturation == self.saturation,
            r.hue == self.hue,
            r.transition_time == self.transition_time,
    {
        HueLightStatePayload {
            on: self.on,
            brightness: self.brightness,
            saturation: self.saturation,
            hue: self.hue,
            transition_time: self.transition_time,
        }
    }
}

impl HueLightStatePayload {
    pub open spec fn is_empty_spec(&self) -> bool {
        self.on is None && self.brightness is None && self.saturation is None && self.hue is None
            && self.transition_time is None
    }

    /// No field is present.
    pub fn is_empty(&self) -> (r: bool)
        ensures
            r == (self.on is None && self.brightness is None && self.saturation is None
                && self.hue is None && self.transition_time is None),
    {
        self.on.is_none() && self.brightness.is_none() && self.saturation.is_none()
            && self.hue.is_none() && self.transition_time.is_none()
    }
}

#[derive(Clone, Debug, PartialEq, Eq)]
pub struct RawEntertainmentArea {
    pub id: String,
    pub metadata_name: String,
    pub configuration_type: Option<String>,
    pub status: RawEntertainmentAreaStatus,
    pub channels: Vec<RawEntertainmentChannel>,
    pub light_services: Vec<RawClipV2ResourceServiceIdentifier>,
    pub location_ids: Vec<String>,
}

/// The area status, which the bridge sends either as a string or as an object.
#[derive(Clone, Debug, PartialEq, Eq)]
pub enum RawEntertainmentAreaStatus {
    String(String),
    Object { status: String },
}

#[derive(Clone, Debug, PartialEq, Eq)]
pub struct RawEntertainmentChannel {
    pub channel_id: u8,
    pub position: EntertainmentPosition,
    pub members: Vec<RawEntertainmentChannelMember>,
}

#[derive(Clone, Debug, PartialEq, Eq)]
pub struct RawEntertainmentChannelMember {
    pub service: Option<RawClipV2ResourceServiceIdentifier>,
    pub rid: Option<String>,
    pub rtype: Option<String>,
}

#[derive(Clone, Debug, PartialEq, Eq)]
pub struct RawClipV2ResourceServiceIdentifier {
    pub rid: String,
    pub rtype: Option<String>,
}

#[derive(Clone, Debug, PartialEq, Eq)]
pub struct RawAutomation {
    pub id: String,
    pub automation_type: Option<String>,
    pub metadata_name: String,
    pub enabled: Option<bool>,
    pub script_id: Option<String>,
}

} // verus!
