//! A connection that combines a transport, a codec and a protocol, and
//! tracks whether it is still healthy.

use vstd::prelude::*;
use std::sync::Arc;

verus! {

/// A pooled connection: how messages move (`T`), how they map to frames
/// (`C`) and the protocol's semantics (`P`), with its health.
#[derive(Debug)]
pub struct ProtocolConnection<T, C, P> {
    pub transport: T,
    pub codec: C,
    pub protocol: Arc<P>,
    healthy: bool,
}

impl<T, C, P> ProtocolConnection<T, C, P> {
    /// Whether the connection is still considered healthy.
    pub closed spec fn is_healthy_spec(&self) -> bool {
        self.healthy
    }

    /// The transport, the codec and the protocol.
    pub closed spec fn parts(&self) -> (T, C, Arc<P>) {
        (self.transport, self.codec, self.protocol)
    }

    /// A fresh, healthy connection.
    pub fn new(transport: T, codec: C, protocol: Arc<P>) -> (c: ProtocolConnection<T, C, P>)
        ensures
            c.parts() == (transport, codec, protocol),
            c.is_healthy_spec(),
    {
        ProtocolConnection { transport, codec, protocol, healthy: true }
    }

    /// Whether the connection is still considered healthy.
    pub fn healthy(&self) -> (b: bool)
        ensures
            b == self.is_healthy_spec(),
    {
        self.healthy
    }

    /// Whether a health check needs a ping: only while the connection is
    /// considered healthy; an unhealthy one stays unhealthy.
    pub fn needs_ping(&self) -> (b: bool)
        ensures
            b == self.is_healthy_spec(),
    {
        self.healthy
    }

    /// Records the outcome of a ping and returns the new health: healthy only
    /// if it was healthy and the ping succeeded; an unhealthy connection
    /// stays unhealthy.
    pub fn record_ping(&mut self, ok: bool) -> (b: bool)
        ensures
            b == (old(self).is_healthy_spec() && ok),
            final(self).is_healthy_spec() == b,
            final(self).parts() == old(self).parts(),
    {
        self.healthy = self.healthy && ok;
        self.healthy
    }

    /// Records the outcome of a session reset: a failed reset marks the
    /// connection unhealthy so that the pool discards it; a successful one
    /// leaves the health as it was.
    pub fn record_reset(&mut self, ok: bool)
        ensures
            final(self).is_healthy_spec() == (old(self).is_healthy_spec() && ok),
            final(self).parts() == old(self).parts(),
    {
        if !ok {
            self.healthy = false;
        }
    }
}

} // verus!
