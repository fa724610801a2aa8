//! The property model: last-known values per asset, fed by telemetry whose
//! logical topic is "<asset>/<property>".

use vstd::prelude::*;
use crate::text::{ascii_lower, rsplit_once_char, trim_ws};
use crate::mqtt::events::{GatewayEvent, TelemetryEvent};

pub mod position;
pub mod speed;

use crate::mqtt::properties::position::{PositionProperty, position_update};
use crate::mqtt::properties::speed::{SpeedProperty, speed_update};

verus! {

/// The asset part of a logical topic: what comes before its last slash
/// (after trimming white space), or the whole trimmed topic when it has none.
pub open spec fn asset_of(topic: Seq<char>) -> Seq<char> {
    match rsplit_once_char(trim_ws(topic), '/') {
        Some((asset, _)) => asset,
        None => trim_ws(topic),
    }
}

/// The property part of a logical topic: what comes after its last slash,
/// if it has one.
pub open spec fn prop_of(topic: Seq<char>) -> Option<Seq<char>> {
    match rsplit_once_char(trim_ws(topic), '/') {
        Some((_, prop)) => Some(prop),
        None => None,
    }
}

/// Whether the logical topic names one of the two property names, in any
/// ASCII case.
pub open spec fn names_property(topic: Seq<char>, name: Seq<char>, alias: Seq<char>) -> bool {
    match prop_of(topic) {
        Some(p) => ascii_lower(p) == name || ascii_lower(p) == alias,
        None => false,
    }
}

/// All tracked properties.
#[derive(Debug)]
pub struct PropertyModel {
    pub position: PositionProperty,
    pub speed: SpeedProperty,
}

impl PropertyModel {
    /// Both properties are well formed.
    pub open spec fn wf(&self) -> bool {
        self.position.wf() && self.speed.wf()
    }

    /// A model that knows no value yet.
    pub fn new() -> (m: PropertyModel)
        ensures
            m.wf(),
            m.position@ == Map::<Seq<char>, position::PositionState>::empty(),
            m.speed@ == Map::<Seq<char>, speed::SpeedState>::empty(),
    {
        PropertyModel { position: PositionProperty::new(), speed: SpeedProperty::new() }
    }

    /// Feeds one telemetry event to every property.
    pub fn apply_telemetry(&mut self, t: &TelemetryEvent)
        requires
            old(self).wf(),
        ensures
            final(self).wf(),
            final(self).position@ == match position_update(*t) {
                Some((k, s)) => old(self).position@.insert(k, s),
                None => old(self).position@,
            },
            final(self).speed@ == match speed_update(*t) {
                Some((k, s)) => old(self).speed@.insert(k, s),
                None => old(self).speed@,
            },
    {
        self.position.update_from_telemetry(t);
        self.speed.update_from_telemetry(t);
    }
}

/// The positions after applying the telemetry among `evts`, in order, to `m`.
pub open spec fn positions_after(
    m: Map<Seq<char>, position::PositionState>,
    evts: Seq<GatewayEvent>,
) -> Map<Seq<char>, position::PositionState>
    decreases evts.len(),
{
    if evts.len() == 0 {
        m
    } else {
        let prev = positions_after(m, evts.drop_last());
        match evts.last() {
            GatewayEvent::Telemetry(t) => match position_update(t) {
                Some((k, s)) => prev.insert(k, s),
                None => prev,
            },
            _ => prev,
        }
    }
}

/// The speeds after applying the telemetry among `evts`, in order, to `m`.
pub open spec fn speeds_after(
    m: Map<Seq<char>, speed::SpeedState>,
    evts: Seq<GatewayEvent>,
) -> Map<Seq<char>, speed::SpeedState>
    decreases evts.len(),
{
    if evts.len() == 0 {
        m
    } else {
        let prev = speeds_after(m, evts.drop_last());
        match evts.last() {
            GatewayEvent::Telemetry(t) => match speed_update(t) {
                Some((k, s)) => prev.insert(k, s),
                None => prev,
            },
            _ => prev,
        }
    }
}

impl PropertyModel {
    /// Feeds an event to the model: telemetry updates the properties, other
    /// events leave them as they are.
    pub fn observe(&mut self, e: &GatewayEvent)
        requires
            old(self).wf(),
        ensures
            final(self).wf(),
            final(self).position@ == positions_after(old(self).position@, seq![*e]),
            final(self).speed@ == speeds_after(old(self).speed@, seq![*e]),
    {
        let ghost p0 = self.position@;
        let ghost s0 = self.speed@;
        proof {
            assert(seq![*e].drop_last() =~= Seq::<GatewayEvent>::empty());
            assert(positions_after(p0, Seq::<GatewayEvent>::empty()) == p0);
            assert(speeds_after(s0, Seq::<GatewayEvent>::empty()) == s0);
            assert(seq![*e].last() == *e);
        }
        match e {
            GatewayEvent::Telemetry(t) => self.apply_telemetry(t),
            _ => {},
        }
    }

    /// Feeds a batch of events to the model, in order.
    pub fn observe_all(&mut self, evts: &Vec<GatewayEvent>)
        requires
            old(self).wf(),
        ensures
            final(self).wf(),
            final(self).position@ == positions_after(old(self).position@, evts@),
            final(self).speed@ == speeds_after(old(self).speed@, evts@),
    {
        let ghost p0 = self.position@;
        let ghost s0 = self.speed@;
        let mut i: usize = 0;
        while i < evts.len()
            invariant
                self.wf(),
                i <= evts@.len(),
                self.position@ == positions_after(p0, evts@.take(i as int)),
                self.speed@ == speeds_after(s0, evts@.take(i as int)),
            decreases evts.len() - i,
        {
            let ghost pi = self.position@;
            let ghost si = self.speed@;
            self.observe(&evts[i]);
            proof {
                let e = evts@[i as int];
                assert(evts@.take(i + 1).drop_last() =~= evts@.take(i as int));
                assert(evts@.take(i + 1).last() == e);
                assert(seq![e].drop_last() =~= Seq::<GatewayEvent>::empty());
                assert(seq![e].last() == e);
                assert(positions_after(pi, Seq::<GatewayEvent>::empty()) == pi);
                assert(speeds_after(si, Seq::<GatewayEvent>::empty()) == si);
            }
            i = i + 1;
        }
        assert(evts@.take(evts@.len() as int) =~= evts@);
    }
}

impl Default for PropertyModel {
    fn default() -> (m: PropertyModel)
        ensures
            m.wf(),
            m.position@ == Map::<Seq<char>, position::PositionState>::empty(),
            m.speed@ == Map::<Seq<char>, speed::SpeedState>::empty(),
    {
        PropertyModel::new()
    }
}

/// A number sent on "<asset>/position" is what the position of the asset
/// reads afterwards, and a number on "<asset>/speed" what its speed reads.
pub proof fn lemma_telemetry_is_read_back(
    positions: Map<Seq<char>, position::PositionState>,
    speeds: Map<Seq<char>, speed::SpeedState>,
    t: TelemetryEvent,
)
    ensures
        position_update(t) matches Some((k, s)) ==> positions_after(positions, seq![GatewayEvent::Telemetry(t)]).contains_key(k)
            && positions_after(positions, seq![GatewayEvent::Telemetry(t)])[k] == s,
        speed_update(t) matches Some((k, s)) ==> speeds_after(speeds, seq![GatewayEvent::Telemetry(t)]).contains_key(k)
            && speeds_after(speeds, seq![GatewayEvent::Telemetry(t)])[k] == s,
{
    let evts = seq![GatewayEvent::Telemetry(t)];
    assert(evts.drop_last() =~= Seq::<GatewayEvent>::empty());
    assert(evts.last() == GatewayEvent::Telemetry(t));
}

/// Events other than telemetry change no property.
pub proof fn lemma_other_events_change_nothing(
    positions: Map<Seq<char>, position::PositionState>,
    speeds: Map<Seq<char>, speed::SpeedState>,
    e: GatewayEvent,
)
    requires
        !(e is Telemetry),
    ensures
        positions_after(positions, seq![e]) == positions,
        speeds_after(speeds, seq![e]) == speeds,
{
    let evts = seq![e];
    assert(evts.drop_last() =~= Seq::<GatewayEvent>::empty());
    assert(evts.last() == e);
    assert(positions_after(positions, Seq::<GatewayEvent>::empty()) == positions);
    assert(speeds_after(speeds, Seq::<GatewayEvent>::empty()) == speeds);
}

/// No topic is both a position and a speed topic, so a telemetry event
/// changes at most one of the two properties.
pub proof fn lemma_position_and_speed_topics_disjoint(topic: Seq<char>)
    ensures
        !(position::is_position_topic(topic) && speed::is_speed_topic(topic)),
{
    reveal_strlit("position");
    reveal_strlit("pos");
    reveal_strlit("speed");
    reveal_strlit("rpm");
    if let Some(p) = prop_of(topic) {
        let l = ascii_lower(p);
        if l == "position"@ || l == "pos"@ {
            assert(l[0] == 'p');
            assert("speed"@[0] == 's');
            assert("rpm"@[0] == 'r');
        }
    }
}

} // verus!
