//! The MQTT bridge of the protocol-neutral gateway: which topics it uses and
//! how it logs in.

use vstd::prelude::*;
use crate::text::{chars_of, concat_chars, string_from_chars};
use crate::gateway::downstream::IDownstream;

verus! {

/// The topic filter for events of the machines.
pub const EVENT_TOPIC_FILTER: &'static str = "dt/+/event/+";

/// The topic filter for property updates of the machines.
pub const PROPERTY_TOPIC_FILTER: &'static str = "dt/+/property/+";

/// The seconds between keep-alive pings to the broker.
pub const KEEP_ALIVE_SECS: u64 = 30;

/// The credentials to log in to the broker with: the configuration's user
/// name and password, when a configuration is set and its user name is not
/// empty.
pub fn broker_credentials(ds: &IDownstream) -> (r: Option<(String, String)>)
    ensures
        match ds.configuration {
            Some(c) => if c.username@.len() > 0 {
                r == Some((c.username, c.password))
            } else {
                r is None
            },
            None => r is None,
        },
{
    match ds.configuration() {
        Some(conf) => {
            if chars_of(conf.username.as_str()).len() > 0 {
                Some((conf.username.clone(), conf.password.clone()))
            } else {
                None
            }
        },
        None => None,
    }
}

/// The topic on which a request to execute the method `name` is published.
pub open spec fn execute_topic(name: Seq<char>) -> Seq<char> {
    "dt/method/"@ + name + "/execute"@
}

/// The topic on which a request to execute the method `name` is published.
pub fn method_execute_topic(name: &str) -> (t: String)
    ensures
        t@ == execute_topic(name@),
{
    let a = concat_chars(&chars_of("dt/method/"), &chars_of(name));
    let b = concat_chars(&a, &chars_of("/execute"));
    string_from_chars(&b)
}

} // verus!
