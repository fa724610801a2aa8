//! Settings of the connection to the machines' broker.

use vstd::prelude::*;
use crate::time::Duration;

verus! {

/// How to reach the machines' broker and what to subscribe to.
#[derive(Clone, Debug)]
pub struct MqttDownstreamConfig {
    pub host: String,
    pub port: u16,
    pub client_id: String,
    pub username: Option<String>,
    pub password: Option<String>,
    pub keep_alive_secs: u64,
    pub subscribe_filter: String,
}

impl MqttDownstreamConfig {
    /// The credentials to log in with: only when both a user name and a
    /// password are set.
    pub fn credentials(&self) -> (r: Option<(String, String)>)
        ensures
            match (self.username, self.password) {
                (Some(u), Some(p)) => r == Some((u, p)),
                _ => r is None,
            },
    {
        match (&self.username, &self.password) {
            (Some(u), Some(p)) => Some((u.clone(), p.clone())),
            _ => None,
        }
    }

    /// The keep-alive interval.
    pub fn keep_alive(&self) -> (d: Duration)
        ensures
            d.wf(),
            d.secs == self.keep_alive_secs,
            d.nanos == 0,
    {
        Duration::from_secs(self.keep_alive_secs)
    }
}

} // verus!
