//! The last-known position of each asset.

use vstd::prelude::*;
use crate::keyed_map::KeyedMap;
use crate::text::{chars_eq_str, chars_of, clone_opt_string, rsplit_once, string_from_chars, to_ascii_lowercase, trim};
use crate::time::{Timestamp, utc_now};
use crate::mqtt::events::{TelemetryEvent, Value};
use crate::mqtt::properties::{asset_of, names_property};

verus! {

/// The last-known position of an asset.
#[derive(Clone, Debug)]
pub struct PositionState {
    /// The position, as decimal text that reads as a float.
    pub value: String,
    pub unit: Option<String>,
    pub ts: Timestamp,
}

/// Whether the logical topic is a position topic: "<asset>/position" or
/// "<asset>/pos", in any ASCII case.
pub open spec fn is_position_topic(topic: Seq<char>) -> bool {
    names_property(topic, "position"@, "pos"@)
}

/// The asset and new state that a telemetry event sets, if it carries a
/// number on a position topic.
pub open spec fn position_update(t: TelemetryEvent) -> Option<(Seq<char>, PositionState)> {
    if is_position_topic(t.topic@) {
        match t.value {
            Value::Number { number, unit } => Some(
                (asset_of(t.topic@), PositionState { value: number, unit, ts: t.ts }),
            ),
            _ => None,
        }
    } else {
        None
    }
}

/// The asset of a logical topic and whether the topic is a position topic.
pub fn split_asset_and_prop(topic: &str) -> (r: (String, bool))
    ensures
        r.0@ == asset_of(topic@),
        r.1 == is_position_topic(topic@),
{
    let t = trim(&chars_of(topic));
    match rsplit_once(&t, '/') {
        Some((asset, prop)) => {
            let p = to_ascii_lowercase(&prop);
            let matches = chars_eq_str(&p, "position") || chars_eq_str(&p, "pos");
            (string_from_chars(&asset), matches)
        },
        None => (string_from_chars(&t), false),
    }
}

/// The last-known position per asset id (such as a conveyor id).
#[derive(Debug)]
pub struct PositionProperty {
    values: KeyedMap<PositionState>,
}

impl View for PositionProperty {
    type V = Map<Seq<char>, PositionState>;

    closed spec fn view(&self) -> Map<Seq<char>, PositionState> {
        self.values@
    }
}

impl PositionProperty {
    /// The internal invariant.
    pub closed spec fn wf(&self) -> bool {
        self.values.wf()
    }

    /// No position known yet.
    pub fn new() -> (p: PositionProperty)
        ensures
            p.wf(),
            p@ == Map::<Seq<char>, PositionState>::empty(),
    {
        PositionProperty { values: KeyedMap::new() }
    }

    /// The last-known position of `asset_id`.
    pub fn get(&self, asset_id: &str) -> (r: Option<&PositionState>)
        requires
            self.wf(),
        ensures
            r matches Some(s) ==> self@.contains_key(asset_id@) && *s == self@[asset_id@],
            r is None ==> !self@.contains_key(asset_id@),
    {
        self.values.get(asset_id)
    }

    /// The ids of all assets with a known position, each once.
    pub fn ids(&self) -> (ids: Vec<String>)
        requires
            self.wf(),
        ensures
            ids@.map_values(|s: String| s@).to_set() == self@.dom(),
            ids@.map_values(|s: String| s@).no_duplicates(),
    {
        proof {
            self.values.lemma_key_list();
        }
        self.values.keys()
    }

    /// Sets the position of `asset_id` as of `ts`.
    pub fn set_manual_at(&mut self, asset_id: &str, value: String, unit: Option<String>, ts: Timestamp)
        requires
            old(self).wf(),
        ensures
            final(self).wf(),
            final(self)@ == old(self)@.insert(asset_id@, PositionState { value, unit, ts }),
    {
        let key = string_from_chars(&chars_of(asset_id));
        self.values.insert(key, PositionState { value, unit, ts });
    }

    /// Sets the position of `asset_id` as of now.
    pub fn set_manual(&mut self, asset_id: &str, value: String, unit: Option<String>)
        requires
            old(self).wf(),
        ensures
            final(self).wf(),
            exists|ts: Timestamp| final(self)@ == old(self)@.insert(asset_id@, PositionState { value, unit, ts }),
    {
        let ts = utc_now();
        self.set_manual_at(asset_id, value, unit, ts);
    }

    /// Records the position that a telemetry event carries, if any.
    pub fn update_from_telemetry(&mut self, t: &TelemetryEvent)
        requires
            old(self).wf(),
        ensures
            final(self).wf(),
            final(self)@ == match position_update(*t) {
                Some((k, s)) => old(self)@.insert(k, s),
                None => old(self)@,
            },
    {
        let (asset_id, is_position) = split_asset_and_prop(t.topic.as_str());
        if !is_position {
            return;
        }
        match &t.value {
            Value::Number { number, unit } => {
                let state = PositionState { value: number.clone(), unit: clone_opt_string(unit), ts: t.ts };
                self.values.insert(asset_id, state);
            },
            _ => {},
        }
    }
}

impl Default for PositionProperty {
    fn default() -> (p: PositionProperty)
        ensures
            p.wf(),
            p@ == Map::<Seq<char>, PositionState>::empty(),
    {
        PositionProperty::new()
    }
}

} // verus!
