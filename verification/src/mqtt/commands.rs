//! Commands from the engine to the machines, and the MQTT topics they go to.

use vstd::prelude::*;
use crate::text::{chars_of, concat_chars, string_from_chars, trim_end_char, trim_end_matches};
use crate::mqtt::types::{MqttPublish, Qos};

verus! {

/// Reset a machine.
#[derive(Clone, Debug)]
pub struct ResetMachine {
    pub machine_id: String,
}

/// Set the speed of a conveyor.
#[derive(Clone, Debug)]
pub struct SetConveyorSpeed {
    /// Such as "förderband1-4".
    pub conveyor_id: String,
    /// The target speed, as decimal text that reads as a float.
    pub speed: String,
}

/// The commands the gateway can send.
#[derive(Clone, Debug)]
pub enum Command {
    ResetMachine(ResetMachine),
    SetConveyorSpeed(SetConveyorSpeed),
}

/// The name of a kind of command, as it appears on the wire.
pub trait CommandKind {
    /// The name of the command's kind.
    spec fn kind_name(&self) -> Seq<char>;

    /// The name of the command's kind.
    fn kind(&self) -> (k: &'static str)
        ensures
            k@ == self.kind_name(),
    ;
}

impl CommandKind for Command {
    open spec fn kind_name(&self) -> Seq<char> {
        match self {
            Command::ResetMachine(_) => "reset_machine"@,
            Command::SetConveyorSpeed(_) => "set_conveyor_speed"@,
        }
    }

    fn kind(&self) -> (k: &'static str) {
        match self {
            Command::ResetMachine(_) => "reset_machine",
            Command::SetConveyorSpeed(_) => "set_conveyor_speed",
        }
    }
}

/// The topic of a command: the prefix without trailing slashes, a slash and
/// the command's kind.
pub open spec fn command_topic(prefix: Seq<char>, kind: Seq<char>) -> Seq<char> {
    trim_end_char(prefix, '/') + seq!['/'] + kind
}

impl Command {
    /// The topic this command is published on under `command_prefix`.
    pub fn topic(&self, command_prefix: &str) -> (t: String)
        ensures
            t@ == command_topic(command_prefix@, self.kind_name()),
    {
        let base = trim_end_matches(&chars_of(command_prefix), '/');
        let mut slash: Vec<char> = Vec::new();
        slash.push('/');
        let with_slash = concat_chars(&base, &slash);
        let full = concat_chars(&with_slash, &chars_of(self.kind()));
        string_from_chars(&full)
    }

    /// The publish that carries this command, given its serialized envelope
    /// (kind, time and data as JSON): on the command's topic, not retained,
    /// delivered at least once.
    pub fn to_mqtt_with(&self, command_prefix: &str, payload: Vec<u8>) -> (p: MqttPublish)
        ensures
            p.topic@ == command_topic(command_prefix@, self.kind_name()),
            p.payload@ == payload@,
            !p.retain,
            p.qos == Qos::AtLeastOnce,
    {
        MqttPublish { topic: self.topic(command_prefix), payload, retain: false, qos: Qos::AtLeastOnce }
    }
}

/// Trailing slashes of the prefix do not matter: a command goes to the same
/// topic under "p" as under "p/" (and "p//", ...).
pub proof fn lemma_topic_ignores_trailing_slash(prefix: Seq<char>, kind: Seq<char>)
    ensures
        command_topic(prefix.push('/'), kind) == command_topic(prefix, kind),
{
    assert(prefix.push('/').drop_last() =~= prefix);
}

} // verus!
