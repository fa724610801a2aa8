//! The events that the gateway hands to the engine.

use vstd::prelude::*;
use crate::time::Timestamp;
use crate::mqtt::types::Severity;

verus! {

/// The value of a telemetry sample.
#[derive(Clone, Debug)]
pub enum Value {
    /// A number with an optional unit. The number is held as its decimal
    /// text (a point before any fraction), which reads as a float exactly.
    Number { number: String, unit: Option<String> },
    /// Text that is not a number.
    Text(String),
    /// Nothing was sent.
    Unknown,
}

/// A telemetry sample from the machines.
#[derive(Clone, Debug)]
pub struct TelemetryEvent {
    /// The logical topic, such as "belt-4/speed".
    pub topic: String,
    pub data_raw: String,
    pub value: Value,
    pub ts: Timestamp,
    /// The MQTT topic the sample came in on.
    pub source_mqtt_topic: String,
}

/// A machine reported a failure.
#[derive(Clone, Debug)]
pub struct MachineFailureEvent {
    pub machine_id: String,
    pub component: String,
    pub failure_code: Option<String>,
    pub severity: Severity,
    pub message: Option<String>,
    pub ts: Timestamp,
}

/// A machine reported a counter deviation.
#[derive(Clone, Debug)]
pub struct CounterDeviationEvent {
    pub machine_id: String,
    pub counter_name: String,
    pub expected: i64,
    pub actual: i64,
    pub tolerance: Option<i64>,
    pub severity: Severity,
    pub message: Option<String>,
    pub ts: Timestamp,
}

/// What the gateway forwards to the engine.
#[derive(Clone, Debug)]
pub enum GatewayEvent {
    Telemetry(TelemetryEvent),
    MachineFailure(MachineFailureEvent),
    CounterDeviation(CounterDeviationEvent),
}

} // verus!
