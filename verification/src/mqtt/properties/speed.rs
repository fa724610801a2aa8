//! The last-known speed of each asset.

use vstd::prelude::*;
use crate::keyed_map::KeyedMap;
use crate::text::{chars_eq_str, chars_of, clone_opt_string, rsplit_once, string_from_chars, to_ascii_lowercase, trim};
use crate::time::Timestamp;
use crate::mqtt::commands::{Command, SetConveyorSpeed};
use crate::mqtt::events::{TelemetryEvent, Value};
use crate::mqtt::properties::{asset_of, names_property};

verus! {

/// The last-known speed of an asset.
#[derive(Clone, Debug)]
pub struct SpeedState {
    /// The speed, as decimal text that reads as a float.
    pub value: String,
    pub unit: Option<String>,
    pub ts: Timestamp,
}

/// Whether the logical topic is a speed topic: "<asset>/speed" or
/// "<asset>/rpm", in any ASCII case.
pub open spec fn is_speed_topic(topic: Seq<char>) -> bool {
    names_property(topic, "speed"@, "rpm"@)
}

/// The asset and new state that a telemetry event sets, if it carries a
/// number on a speed topic.
pub open spec fn speed_update(t: TelemetryEvent) -> Option<(Seq<char>, SpeedState)> {
    if is_speed_topic(t.topic@) {
        match t.value {
            Value::Number { number, unit } => Some(
                (asset_of(t.topic@), SpeedState { value: number, unit, ts: t.ts }),
            ),
            _ => None,
        }
    } else {
        None
    }
}

/// The asset of a logical topic and whether the topic is a speed topic.
pub fn split_asset_and_prop(topic: &str) -> (r: (String, bool))
    ensures
        r.0@ == asset_of(topic@),
        r.1 == is_speed_topic(topic@),
{
    let t = trim(&chars_of(topic));
    match rsplit_once(&t, '/') {
        Some((asset, prop)) => {
            let p = to_ascii_lowercase(&prop);
            let matches = chars_eq_str(&p, "speed") || chars_eq_str(&p, "rpm");
            (string_from_chars(&asset), matches)
        },
        None => (string_from_chars(&t), false),
    }
}

/// The last-known speed per asset id (such as a conveyor id).
#[derive(Debug)]
pub struct SpeedProperty {
    values: KeyedMap<SpeedState>,
}

impl View for SpeedProperty {
    type V = Map<Seq<char>, SpeedState>;

    closed spec fn view(&self) -> Map<Seq<char>, SpeedState> {
        self.values@
    }
}

impl SpeedProperty {
    /// The internal invariant.
    pub closed spec fn wf(&self) -> bool {
        self.values.wf()
    }

    /// No speed known yet.
    pub fn new() -> (p: SpeedProperty)
        ensures
            p.wf(),
            p@ == Map::<Seq<char>, SpeedState>::empty(),
    {
        SpeedProperty { values: KeyedMap::new() }
    }

    /// The last-known speed of `asset_id`.
    pub fn get(&self, asset_id: &str) -> (r: Option<&SpeedState>)
        requires
            self.wf(),
        ensures
            r matches Some(s) ==> self@.contains_key(asset_id@) && *s == self@[asset_id@],
            r is None ==> !self@.contains_key(asset_id@),
    {
        self.values.get(asset_id)
    }

    /// The ids of all assets with a known speed, each once.
    pub fn ids(&self) -> (ids: Vec<String>)
        requires
            self.wf(),
        ensures
            ids@.map_values(|s: String| s@).to_set() == self@.dom(),
            ids@.map_values(|s: String| s@).no_duplicates(),
    {
        proof {
            self.values.lemma_key_list();
        }
        self.values.keys()
    }

    /// The command that asks for `speed` on conveyor `conveyor_id`; the
    /// known speed changes only when telemetry reports it.
    pub fn set_target_speed_cmd(&self, conveyor_id: &str, speed: String) -> (c: Command)
        ensures
            c matches Command::SetConveyorSpeed(s) && s.conveyor_id@ == conveyor_id@ && s.speed
                == speed,
    {
        Command::SetConveyorSpeed(
            SetConveyorSpeed { conveyor_id: string_from_chars(&chars_of(conveyor_id)), speed },
        )
    }

    /// Records the speed that a telemetry event carries, if any.
    pub fn update_from_telemetry(&mut self, t: &TelemetryEvent)
        requires
            old(self).wf(),
        ensures
            final(self).wf(),
            final(self)@ == match speed_update(*t) {
                Some((k, s)) => old(self)@.insert(k, s),
                None => old(self)@,
            },
    {
        let (asset_id, is_speed) = split_asset_and_prop(t.topic.as_str());
        if !is_speed {
            return;
        }
        match &t.value {
            Value::Number { number, unit } => {
                let state = SpeedState { value: number.clone(), unit: clone_opt_string(unit), ts: t.ts };
                self.values.insert(asset_id, state);
            },
            _ => {},
        }
    }
}

impl Default for SpeedProperty {
    fn default() -> (p: SpeedProperty)
        ensures
            p.wf(),
            p@ == Map::<Seq<char>, SpeedState>::empty(),
    {
        SpeedProperty::new()
    }
}

} // verus!
