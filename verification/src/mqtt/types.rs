//! The wire schema of structured events on MQTT and the transport-level
//! message types.

use vstd::prelude::*;
use crate::time::Timestamp;

verus! {

/// The schema tag that version one of the structured events carries.
pub const EVENT_SCHEMA_V1: &'static str = "ft.events.v1";

/// Where a structured event comes from.
#[derive(Clone, Debug)]
pub struct SourceInfo {
    pub machine_id: String,
    pub line: Option<String>,
    pub station: Option<String>,
}

/// A versioned envelope of one structured event.
#[derive(Clone, Debug)]
pub struct EventEnvelope {
    /// Must be `EVENT_SCHEMA_V1` for this version.
    pub schema: String,
    /// Optional event id.
    pub id: Option<String>,
    /// When the event happened.
    pub ts: Timestamp,
    pub source: SourceInfo,
    pub event: WireEvent,
}

/// The structured events that machines publish.
#[derive(Clone, Debug)]
pub enum WireEvent {
    MachineFailure(MachineFailureData),
    CounterDeviation(CounterDeviationData),
}

/// A component of a machine failed.
#[derive(Clone, Debug)]
pub struct MachineFailureData {
    pub component: String,
    /// Such as "stuck", "overheat" or "timeout".
    pub failure_code: Option<String>,
    pub severity: Severity,
    pub message: Option<String>,
}

/// A counter of a machine differs from its expected value.
#[derive(Clone, Debug)]
pub struct CounterDeviationData {
    /// Logical name of the counter.
    pub counter_name: String,
    pub expected: i64,
    pub actual: i64,
    pub tolerance: Option<i64>,
    pub severity: Severity,
    pub message: Option<String>,
}

/// How serious an event is.
#[derive(Clone, Copy, Debug, PartialEq, Eq, Structural)]
pub enum Severity {
    Info,
    Warning,
    Error,
    Critical,
}

impl Default for Severity {
    /// An event without a severity is informational.
    fn default() -> (s: Severity)
        ensures
            s == Severity::Info,
    {
        Severity::Info
    }
}

/// A structured payload: one envelope or a list of them.
#[derive(Clone, Debug)]
pub enum WireEventPayload {
    One(EventEnvelope),
    Many(Vec<EventEnvelope>),
}

/// The envelopes a payload holds, in order.
pub open spec fn payload_envelopes(p: WireEventPayload) -> Seq<EventEnvelope> {
    match p {
        WireEventPayload::One(e) => seq![e],
        WireEventPayload::Many(v) => v@,
    }
}

impl WireEventPayload {
    /// The envelopes of the payload, in order.
    pub fn into_vec(self) -> (v: Vec<EventEnvelope>)
        ensures
            v@ == payload_envelopes(self),
    {
        match self {
            WireEventPayload::One(e) => vec![e],
            WireEventPayload::Many(v) => v,
        }
    }
}

/// A message received from the broker.
#[derive(Clone, Debug)]
pub struct MqttMessage {
    pub topic: String,
    pub payload: Vec<u8>,
}

/// The delivery guarantee of a publish.
#[derive(Clone, Copy, Debug, PartialEq, Eq, Structural)]
pub enum Qos {
    AtMostOnce,
    AtLeastOnce,
    ExactlyOnce,
}

/// A message to publish to the broker.
#[derive(Clone, Debug)]
pub struct MqttPublish {
    pub topic: String,
    pub payload: Vec<u8>,
    pub retain: bool,
    pub qos: Qos,
}

} // verus!
