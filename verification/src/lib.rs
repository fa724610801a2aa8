//! Core logic of a digital twin: database client configuration, datapoints
//! and connection pooling; the PostgreSQL catalog and its statements; an
//! event queue with a workflow engine and a synchronizer; the MQTT gateway's
//! parsing, decoding, commands and property model; and the protocol-neutral
//! gateway's downstream model.

pub mod time;
pub mod text;
pub mod keyed_map;
pub mod engine;
pub mod database;
pub mod postgres;
pub mod mqtt;
pub mod gateway;
