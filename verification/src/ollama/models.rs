//! Settings, requests and results of the Ollama command assistant.
use vstd::prelude::*;
use crate::hue::models::BridgeConnection;
use crate::hue::models::{LightStateUpdate};

verus! {

/// How the assistant reaches its Ollama server.
#[derive(Clone, Debug, PartialEq, Eq)]
pub struct OllamaSettings {
    pub base_url: String,
    pub model: String,
    pub api_key: Option<String>,
    pub request_timeout_seconds: u64,
}

impl Default for OllamaSettings {
    fn default() -> (r: Self)
        ensures
            r.base_url@ == "http://localhost:11434"@,
            r.model@ == "qwen2.5:14b-instruct"@,
            r.api_key is None,
            r.request_timeout_seconds == 30,
    {
        OllamaSettings {
            base_url: String::from_str("http://localhost:11434"),
            model: String::from_str("qwen2.5:14b-instruct"),
            api_key: None,
            request_timeout_seconds: 30,
        }
    }
}

impl OllamaSettings {
    /// An equal copy of the settings.
    pub fn duplicate(&self) -> (r: Self)
        ensures
            r == *self,
    {
        OllamaSettings {
            base_url: self.base_url.clone(),
            model: self.model.clone(),
            api_key: match &self.api_key {
                Some(k) => Some(k.clone()),
                None => None,
            },
            request_timeout_seconds: self.request_timeout_seconds,
        }
    }
}

#[derive(Clone, Debug, PartialEq, Eq)]
pub struct ExecuteOllamaCommandRequest {
    pub input: String,
    pub connection: BridgeConnection,
}

/// What became of one planned action.
#[derive(Clone, Debug, PartialEq, Eq)]
pub struct OllamaActionOutcome {
    pub action: String,
    pub target: String,
    pub status: String,
    pub detail: String,
}

#[derive(Clone, Debug, PartialEq, Eq)]
pub struct ExecuteOllamaCommandResult {
    pub assistant_message: String,
    pub actions: Vec<OllamaActionOutcome>,
    pub bridge_state_changed: bool,
    pub updated_connection: Option<BridgeConnection>,
}

/// The plan that the model returns.
#[derive(Clone, Debug, PartialEq, Eq)]
pub struct PlannedResponse {
    pub assistant_message: String,
    pub actions: Vec<PlannedAction>,
}

impl Default for PlannedResponse {
    fn default() -> (r: Self)
        ensures
            r.assistant_message@ == Seq::<char>::empty(),
            r.actions@ == Seq::<PlannedAction>::empty(),
    {
        PlannedResponse { assistant_message: String::new(), actions: Vec::new() }
    }
}

/// One action of a plan.  Numeric fields keep the widths the schema allows, before the
/// values are brought into the bridge's ranges.
#[derive(Clone, Debug, PartialEq, Eq)]
pub enum PlannedAction {
    SetLightState {
        light_id: String,
        on: Option<bool>,
        brightness: Option<u16>,
        saturation: Option<u16>,
        hue: Option<u32>,
        transition_time: Option<u16>,
    },
    SetGroupState {
        group_id: String,
        on: Option<bool>,
        brightness: Option<u16>,
        saturation: Option<u16>,
        hue: Option<u32>,
        transition_time: Option<u16>,
    },
    ActivateScene { scene_id: String, group_id: Option<String> },
    SetAutomationEnabled { automation_id: String, enabled: bool },
    StartAudioSync {
        entertainment_area_id: Option<String>,
        pipewire_target_object: Option<String>,
        speed_mode: Option<String>,
        color_palette: Option<String>,
        base_color_hex: Option<String>,
        brightness_ceiling: Option<u16>,
    },
    StopAudioSync,
    UpdateAudioSync {
        speed_mode: Option<String>,
        color_palette: Option<String>,
        base_color_hex: Option<String>,
        brightness_ceiling: Option<u16>,
    },
}

} // verus!
