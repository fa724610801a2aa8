//! The protocol-neutral gateway: its downstream model of configuration,
//! methods and properties, and the MQTT bridge's decisions on top of it.

pub mod downstream;
pub mod bridge;
