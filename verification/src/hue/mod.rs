pub mod config;
pub mod error;
pub mod models;
pub mod convert;
pub mod order;
pub mod client;
pub mod color;
pub mod entertainment;
pub mod presets;
pub mod areas;
pub mod sensors;
pub mod audio_session;
