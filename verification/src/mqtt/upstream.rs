//! Decoding of MQTT messages into gateway events, and encoding of commands into
//! MQTT publishes.

use vstd::prelude::*;
use vstd::utf8::{decode_utf8, valid_utf8};
use crate::text::{chars_of, chars_eq_str, contains, contains_seq, matches_at, starts_with, trim, trim_ws};
use crate::time::{Timestamp, utc_now};
use crate::mqtt::types::{
    EVENT_SCHEMA_V1, EventEnvelope, MqttMessage, MqttPublish, Qos, WireEvent, WireEventPayload,
    payload_envelopes,
};
use crate::mqtt::events::{
    CounterDeviationEvent, GatewayEvent, MachineFailureEvent, TelemetryEvent, Value,
};
use crate::mqtt::commands::{Command, CommandKind, command_topic};
use crate::mqtt::parser::{
    JsonNode, ParsedSample, json_of_text, opt_string_view, parse_payload_at, payload_samples, sample_view,
    split_value_and_unit, value_and_unit,
};

verus! {

/// How the upstream side reads and writes topics.
#[derive(Clone, Debug)]
pub struct UpstreamConfig {
    /// Commands are published under this prefix.
    pub command_prefix: String,
    /// When set, structured events are only looked for on topics that start
    /// with it.
    pub structured_event_prefix: Option<String>,
}

/// Whether a message on `topic` with `payload` may hold structured events:
/// with a configured prefix, when the topic starts with it; without one,
/// when the payload mentions the quoted keys "schema", "event" and "kind".
pub open spec fn tries_structured(cfg: UpstreamConfig, topic: Seq<char>, payload: Seq<char>) -> bool {
    match cfg.structured_event_prefix {
        Some(prefix) => matches_at(topic, prefix@, 0),
        None => contains_seq(payload, "\"schema\""@) && contains_seq(payload, "\"event\""@)
            && contains_seq(payload, "\"kind\""@),
    }
}

/// The gateway event a structured envelope stands for.
pub open spec fn event_of_envelope(env: EventEnvelope) -> GatewayEvent {
    match env.event {
        WireEvent::MachineFailure(d) => GatewayEvent::MachineFailure(
            MachineFailureEvent {
                machine_id: env.source.machine_id,
                component: d.component,
                failure_code: d.failure_code,
                severity: d.severity,
                message: d.message,
                ts: env.ts,
            },
        ),
        WireEvent::CounterDeviation(d) => GatewayEvent::CounterDeviation(
            CounterDeviationEvent {
                machine_id: env.source.machine_id,
                counter_name: d.counter_name,
                expected: d.expected,
                actual: d.actual,
                tolerance: d.tolerance,
                severity: d.severity,
                message: d.message,
                ts: env.ts,
            },
        ),
    }
}

/// The events of the envelopes whose schema is version one, in order;
/// envelopes of any other schema are skipped.
pub open spec fn v1_events(envs: Seq<EventEnvelope>) -> Seq<GatewayEvent>
    decreases envs.len(),
{
    if envs.len() == 0 {
        Seq::empty()
    } else {
        let rest = v1_events(envs.drop_last());
        if envs.last().schema@ == EVENT_SCHEMA_V1@ {
            rest.push(event_of_envelope(envs.last()))
        } else {
            rest
        }
    }
}

/// The structured events of a message, given the structured parse of its
/// text (`wire`): present only when the message may hold structured events,
/// the text parsed, and at least one envelope has schema version one.
pub open spec fn structured_events(
    cfg: UpstreamConfig,
    topic: Seq<char>,
    text: Seq<char>,
    wire: Option<WireEventPayload>,
) -> Option<Seq<GatewayEvent>> {
    if !tries_structured(cfg, topic, text) {
        None
    } else {
        match wire {
            None => None,
            Some(w) => {
                let evts = v1_events(payload_envelopes(w));
                if evts.len() == 0 {
                    None
                } else {
                    Some(evts)
                }
            },
        }
    }
}

/// Whether the number text reads as a float: it holds only ASCII digits,
/// signs and points. (The value pattern gives text of the shape
/// `[+-]?\d+(\.\d+)?`, and `str::parse::<f64>` accepts it exactly when its
/// digits are ASCII digits.)
pub open spec fn is_decimal_text(n: Seq<char>) -> bool {
    forall|i: int|
        0 <= i < n.len() ==> ('0' <= #[trigger] n[i] <= '9' || n[i] == '.' || n[i] == '+' || n[i]
            == '-')
}

/// Whether `v` is the value of the raw data text `data_raw`: a number with
/// its unit when the text holds a number that reads as a float; otherwise
/// the text itself when it is not blank, and unknown when it is.
pub open spec fn describes_value(v: Value, data_raw: Seq<char>) -> bool {
    let (num, unit) = value_and_unit(data_raw);
    if num is Some && is_decimal_text(num->0) {
        v matches Value::Number { number, unit: u } && number@ == num->0 && opt_string_view(u)
            == unit
    } else if trim_ws(data_raw).len() > 0 {
        v matches Value::Text(t) && t@ == data_raw
    } else {
        v is Unknown
    }
}

/// Whether `e` is the telemetry event of the sample `s` (topic, data text,
/// time) received on `mqtt_topic`.
pub open spec fn telemetry_of(e: GatewayEvent, s: (Seq<char>, Seq<char>, Timestamp), mqtt_topic: Seq<char>) -> bool {
    e matches GatewayEvent::Telemetry(t) && t.topic@ == s.0 && t.data_raw@ == s.1 && t.ts == s.2
        && t.source_mqtt_topic@ == mqtt_topic && describes_value(t.value, s.1)
}

/// Whether `r` are the events of the text `text` received on `topic`: its
/// structured events if it has any, otherwise one telemetry event for each
/// sample of the payload, in order (`json` is the JSON parse of the trimmed
/// text, `now` the default time of samples).
pub open spec fn events_of_text(
    cfg: UpstreamConfig,
    topic: Seq<char>,
    text: Seq<char>,
    wire: Option<WireEventPayload>,
    json: Option<JsonNode>,
    now: Timestamp,
    r: Seq<GatewayEvent>,
) -> bool {
    match structured_events(cfg, topic, text, wire) {
        Some(evts) => r == evts,
        None => {
            let samples = payload_samples(text, topic, json, now);
            r.len() == samples.len() && forall|i: int|
                0 <= i < r.len() ==> #[trigger] telemetry_of(r[i], samples[i], topic)
        },
    }
}

/// Whether `r` are the events of the message `msg`: none when its payload is
/// not UTF-8, otherwise the events of its text, with the text's JSON parse
/// (`json_of_text` of the trimmed text) for its telemetry.
pub open spec fn events_of_message(
    cfg: UpstreamConfig,
    msg: MqttMessage,
    wire: Option<WireEventPayload>,
    now: Timestamp,
    r: Seq<GatewayEvent>,
) -> bool {
    if valid_utf8(msg.payload@) {
        let text = decode_utf8(msg.payload@);
        events_of_text(cfg, msg.topic@, text, wire, json_of_text(trim_ws(text)), now, r)
    } else {
        r.len() == 0
    }
}

/// Decodes `bytes` as UTF-8 with `std::str::from_utf8`, which accepts
/// exactly the valid UTF-8 sequences, and copies the text into a `String`.
#[verifier::external_body]
fn utf8_text(bytes: &Vec<u8>) -> (r: Option<String>)
    ensures
        r is Some == valid_utf8(bytes@),
        r matches Some(s) ==> s@ == decode_utf8(bytes@),
{
    match std::str::from_utf8(bytes.as_slice()) {
        Ok(s) => Some(s.to_string()),
        Err(_) => None,
    }
}

/// Whether the characters of `v` read as a float (see `is_decimal_text`).
fn decimal_text(v: &Vec<char>) -> (b: bool)
    ensures
        b == is_decimal_text(v@),
{
    let mut i: usize = 0;
    while i < v.len()
        invariant
            i <= v@.len(),
            forall|k: int| 0 <= k < i ==> ('0' <= #[trigger] v@[k] <= '9' || v@[k] == '.' || v@[k]
                == '+' || v@[k] == '-'),
        decreases v.len() - i,
    {
        let c = v[i];
        if !(('0' <= c && c <= '9') || c == '.' || c == '+' || c == '-') {
            return false;
        }
        i = i + 1;
    }
    true
}

/// The value of a sample's raw data text.
pub fn telemetry_value(data_raw: &String) -> (v: Value)
    ensures
        describes_value(v, data_raw@),
{
    let (num, unit) = split_value_and_unit(data_raw.as_str());
    match num {
        Some(n) => {
            if decimal_text(&chars_of(n.as_str())) {
                return Value::Number { number: n, unit };
            }
        },
        None => {},
    }
    if trim(&chars_of(data_raw.as_str())).len() > 0 {
        Value::Text(data_raw.clone())
    } else {
        Value::Unknown
    }
}

/// The telemetry event of a sample received on `mqtt_topic`.
pub fn telemetry_event(s: &ParsedSample, mqtt_topic: &String) -> (e: GatewayEvent)
    ensures
        telemetry_of(e, sample_view(*s), mqtt_topic@),
{
    let value = telemetry_value(&s.data_raw);
    GatewayEvent::Telemetry(
        TelemetryEvent {
            topic: s.logical_topic.clone(),
            data_raw: s.data_raw.clone(),
            value,
            ts: s.ts,
            source_mqtt_topic: mqtt_topic.clone(),
        },
    )
}

/// The upstream side of the gateway: decodes messages into events and
/// encodes commands into publishes.
#[derive(Clone, Debug)]
pub struct DefaultUpstream {
    cfg: UpstreamConfig,
}

impl DefaultUpstream {
    /// The configuration.
    pub closed spec fn config(&self) -> UpstreamConfig {
        self.cfg
    }

    /// An upstream with configuration `cfg`.
    pub fn new(cfg: UpstreamConfig) -> (u: DefaultUpstream)
        ensures
            u.config() == cfg,
    {
        DefaultUpstream { cfg }
    }

    /// Whether a message on `topic` with `payload` may hold structured events.
    pub fn should_try_structured(&self, topic: &str, payload: &str) -> (b: bool)
        ensures
            b == tries_structured(self.config(), topic@, payload@),
    {
        match &self.cfg.structured_event_prefix {
            Some(prefix) => starts_with(&chars_of(topic), &chars_of(prefix.as_str())),
            None => {
                let p = chars_of(payload);
                contains(&p, &chars_of("\"schema\"")) && contains(&p, &chars_of("\"event\""))
                    && contains(&p, &chars_of("\"kind\""))
            },
        }
    }

    /// The gateway event a structured envelope stands for.
    pub fn map_envelope_to_event(&self, env: EventEnvelope) -> (e: GatewayEvent)
        ensures
            e == event_of_envelope(env),
    {
        match env.event {
            WireEvent::MachineFailure(d) => GatewayEvent::MachineFailure(
                MachineFailureEvent {
                    machine_id: env.source.machine_id,
                    component: d.component,
                    failure_code: d.failure_code,
                    severity: d.severity,
                    message: d.message,
                    ts: env.ts,
                },
            ),
            WireEvent::CounterDeviation(d) => GatewayEvent::CounterDeviation(
                CounterDeviationEvent {
                    machine_id: env.source.machine_id,
                    counter_name: d.counter_name,
                    expected: d.expected,
                    actual: d.actual,
                    tolerance: d.tolerance,
                    severity: d.severity,
                    message: d.message,
                    ts: env.ts,
                },
            ),
        }
    }

    /// The structured events of a message with text `payload`, given the
    /// structured parse of that text.
    pub fn decode_structured(&self, msg: &MqttMessage, payload: &str, wire: Option<WireEventPayload>) -> (r: Option<Vec<GatewayEvent>>)
        ensures
            match (r, structured_events(self.config(), msg.topic@, payload@, wire)) {
                (Some(v), Some(e)) => v@ == e,
                (None, None) => true,
                _ => false,
            },
    {
        if !self.should_try_structured(msg.topic.as_str(), payload) {
            return None;
        }
        let w = match wire {
            Some(w) => w,
            None => {
                return None;
            },
        };
        let ghost envs = payload_envelopes(w);
        let mut rest = w.into_vec();
        let n = rest.len();
        let mut out: Vec<GatewayEvent> = Vec::new();
        assert(envs.skip(0) =~= envs);
        while rest.len() > 0
            invariant
                n == envs.len(),
                rest.len() <= n,
                rest@ == envs.skip(n - rest.len()),
                out@ == v1_events(envs.take(n - rest.len())),
            decreases rest.len(),
        {
            let ghost done = n - rest.len();
            let env = rest.remove(0);
            proof {
                assert(env == envs[done]);
                assert(rest@ =~= envs.skip(done + 1));
                assert(envs.take(done + 1).drop_last() =~= envs.take(done));
                assert(envs.take(done + 1).last() == envs[done]);
            }
            let is_v1 = chars_eq_str(&chars_of(env.schema.as_str()), EVENT_SCHEMA_V1);
            if is_v1 {
                let e = self.map_envelope_to_event(env);
                out.push(e);
            }
        }
        assert(envs.take(n as int) =~= envs);
        if out.len() == 0 {
            None
        } else {
            Some(out)
        }
    }

    /// The events of a message, given the structured parse of its text, with
    /// `now` as the default time of samples.
    pub fn decode_events_at(
        &self,
        msg: &MqttMessage,
        wire: Option<WireEventPayload>,
        now: Timestamp,
    ) -> (r: Vec<GatewayEvent>)
        ensures
            events_of_message(self.config(), *msg, wire, now, r@),
    {
        let text = match utf8_text(&msg.payload) {
            Some(t) => t,
            None => {
                return Vec::new();
            },
        };
        match self.decode_structured(msg, text.as_str(), wire) {
            Some(evts) => {
                return evts;
            },
            None => {},
        }
        let samples = parse_payload_at(text.as_str(), msg.topic.as_str(), now);
        let ghost views = samples@.map_values(|s: ParsedSample| sample_view(s));
        let mut out: Vec<GatewayEvent> = Vec::new();
        let mut i: usize = 0;
        while i < samples.len()
            invariant
                i <= samples@.len(),
                views == samples@.map_values(|s: ParsedSample| sample_view(s)),
                out@.len() == i,
                forall|k: int| 0 <= k < i ==> #[trigger] telemetry_of(out@[k], views[k], msg.topic@),
            decreases samples.len() - i,
        {
            let e = telemetry_event(&samples[i], &msg.topic);
            out.push(e);
            i = i + 1;
        }
        out
    }

    /// The events of a message, given the structured parse of its text, with
    /// the current time as the default time of samples.
    pub fn decode_events(&self, msg: &MqttMessage, wire: Option<WireEventPayload>) -> (r: Vec<GatewayEvent>)
        ensures
            exists|now: Timestamp| events_of_message(self.config(), *msg, wire, now, r@),
    {
        let now = utc_now();
        self.decode_events_at(msg, wire, now)
    }

    /// The publish of a command, given its serialized envelope.
    pub fn encode_command(&self, cmd: &Command, payload: Vec<u8>) -> (p: MqttPublish)
        ensures
            p.topic@ == command_topic(self.config().command_prefix@, cmd.kind_name()),
            p.payload@ == payload@,
            !p.retain,
            p.qos == Qos::AtLeastOnce,
    {
        cmd.to_mqtt_with(self.cfg.command_prefix.as_str(), payload)
    }
}

/// With a structured-event prefix configured, a message on a topic outside
/// the prefix is never read as structured events, whatever it holds.
pub proof fn lemma_prefix_gates_structured(
    cfg: UpstreamConfig,
    topic: Seq<char>,
    text: Seq<char>,
    wire: Option<WireEventPayload>,
)
    requires
        cfg.structured_event_prefix matches Some(p) && !matches_at(topic, p@, 0),
    ensures
        structured_events(cfg, topic, text, wire) is None,
{
}

/// Only envelopes of schema version one become events: there are never more
/// events than envelopes; when every envelope is of version one, each
/// becomes its event, in order; when none is, there is no event.
pub proof fn lemma_v1_events(envs: Seq<EventEnvelope>)
    ensures
        v1_events(envs).len() <= envs.len(),
        (forall|i: int| 0 <= i < envs.len() ==> (#[trigger] envs[i]).schema@ == EVENT_SCHEMA_V1@)
            ==> v1_events(envs) == envs.map_values(|e: EventEnvelope| event_of_envelope(e)),
        (forall|i: int| 0 <= i < envs.len() ==> (#[trigger] envs[i]).schema@ != EVENT_SCHEMA_V1@)
            ==> v1_events(envs).len() == 0,
    decreases envs.len(),
{
    if envs.len() > 0 {
        let init = envs.drop_last();
        lemma_v1_events(init);
        if forall|i: int| 0 <= i < envs.len() ==> (#[trigger] envs[i]).schema@ == EVENT_SCHEMA_V1@ {
            assert forall|i: int| 0 <= i < init.len() implies (#[trigger] init[i]).schema@ == EVENT_SCHEMA_V1@ by {
                assert(init[i] == envs[i]);
            }
            assert(envs.last() == envs[envs.len() - 1]);
            assert(envs.map_values(|e: EventEnvelope| event_of_envelope(e)) =~= init.map_values(
                |e: EventEnvelope| event_of_envelope(e),
            ).push(event_of_envelope(envs.last())));
        }
        if forall|i: int| 0 <= i < envs.len() ==> (#[trigger] envs[i]).schema@ != EVENT_SCHEMA_V1@ {
            assert forall|i: int| 0 <= i < init.len() implies (#[trigger] init[i]).schema@ != EVENT_SCHEMA_V1@ by {
                assert(init[i] == envs[i]);
            }
            assert(envs.last() == envs[envs.len() - 1]);
        }
    }
}

} // verus!
