//! Verified core of a Philips Hue controller: bridge configuration, Hue API
//! response handling, entertainment streaming packets, persisted settings,
//! room layout and the command-planning logic of the Ollama assistant.
use vstd::prelude::*;

pub mod text;
pub mod string_ops;
pub mod hue;
pub mod json;
pub mod sorting;
pub mod theme;
pub mod ollama;
pub mod app_state;
pub mod rooms;
pub mod ui_rules;
pub mod automation;

verus! {

} // verus!
