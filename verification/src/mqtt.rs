//! The MQTT gateway's models: wire types, telemetry parsing, events,
//! commands and the property model fed by telemetry.

pub mod parser;
pub mod types;
pub mod events;
pub mod commands;
pub mod upstream;
pub mod properties;
pub mod downstream;
