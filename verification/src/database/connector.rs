//! The bookkeeping of a connection pool: its settings, the idle connections
//! and the decisions of checking out and returning a session.

use vstd::prelude::*;
use crate::time::Duration;

verus! {

/// A monotonic instant of the machine's clock.
#[verifier::external_type_specification]
#[verifier::external_body]
pub struct ExInstant(std::time::Instant);

/// Reads the monotonic clock with `std::time::Instant::now`; nothing is
/// promised of the value.
#[verifier::external_body]
fn instant_now() -> (t: std::time::Instant) {
    std::time::Instant::now()
}

/// The time since `t`, through `std::time::Instant::elapsed`, as whole
/// seconds (`Duration::as_secs`) and nanoseconds (`Duration::subsec_nanos`,
/// which std keeps below one second); the value depends on the clock.
#[verifier::external_body]
fn elapsed_since(t: &std::time::Instant) -> (d: Duration)
    ensures
        d.wf(),
{
    let e = t.elapsed();
    Duration { secs: e.as_secs(), nanos: e.subsec_nanos() }
}

/// Pool and session settings.
#[derive(Clone, Copy, Debug)]
pub struct ConnectorConfig {
    /// Most pooled connections; also bounds concurrent sessions.
    pub max_size: usize,
    /// Connections to keep prewarmed, best effort.
    pub min_size: usize,
    /// How long a checkout may wait for capacity.
    pub checkout_timeout: Duration,
    /// Connections idle longer than this are recreated.
    pub max_idle: Option<Duration>,
    /// How often prewarming runs when `min_size` is above zero.
    pub prewarm_interval: Duration,
}

impl Default for ConnectorConfig {
    fn default() -> (c: ConnectorConfig)
        ensures
            c.max_size == 10,
            c.min_size == 0,
            c.checkout_timeout == (Duration { secs: 5, nanos: 0 }),
            c.max_idle == Some((Duration { secs: 300, nanos: 0 })),
            c.prewarm_interval == (Duration { secs: 10, nanos: 0 }),
    {
        ConnectorConfig {
            max_size: 10,
            min_size: 0,
            checkout_timeout: Duration::from_secs(5),
            max_idle: Some(Duration::from_secs(300)),
            prewarm_interval: Duration::from_secs(10),
        }
    }
}

/// Whether span `a` is longer than span `b`, comparing whole seconds first.
pub open spec fn longer_than(a: Duration, b: Duration) -> bool {
    a.secs > b.secs || (a.secs == b.secs && a.nanos > b.nanos)
}

/// Whether a connection idle for `idle_for` must be recreated: only when an
/// idle limit is set and the connection has been idle longer than it.
pub open spec fn recycle_due_spec(max_idle: Option<Duration>, idle_for: Duration) -> bool {
    match max_idle {
        Some(m) => longer_than(idle_for, m),
        None => false,
    }
}

/// Whether a connection idle for `idle_for` must be recreated.
pub fn recycle_due(max_idle: Option<Duration>, idle_for: Duration) -> (b: bool)
    ensures
        b == recycle_due_spec(max_idle, idle_for),
{
    match max_idle {
        Some(m) => idle_for.secs > m.secs || (idle_for.secs == m.secs && idle_for.nanos > m.nanos),
        None => false,
    }
}

/// Whether a released connection goes back to the pool: only when its reset
/// succeeded, it is still healthy and it is not due to be recreated;
/// otherwise it is closed.
pub fn keeps_on_release(reset_ok: bool, healthy: bool, recycle: bool) -> (b: bool)
    ensures
        b == (reset_ok && healthy && !recycle),
{
    reset_ok && healthy && !recycle
}

/// A pooled connection with its id and when it was last used.
#[derive(Debug)]
pub struct Pooled<C> {
    pub conn: C,
    pub last_used: std::time::Instant,
    pub id: u64,
}

/// What a checkout found among the idle connections.
pub enum Candidate<C> {
    /// There was none: a new connection is needed.
    Empty,
    /// The most recently returned one, idle too long: close it and connect anew.
    Stale(Pooled<C>),
    /// The most recently returned one, to be reused if it is still healthy.
    Fresh(Pooled<C>),
}

/// The idle connections of a pool, the number of live sessions and the next
/// connection id.
#[derive(Debug)]
pub struct IdlePool<C> {
    cfg: ConnectorConfig,
    idle: Vec<Pooled<C>>,
    next_id: u64,
    live: usize,
}

impl<C> IdlePool<C> {
    /// The settings.
    pub closed spec fn config(&self) -> ConnectorConfig {
        self.cfg
    }

    /// The idle connections, the most recently returned last.
    pub closed spec fn idle(&self) -> Seq<Pooled<C>> {
        self.idle@
    }

    /// The id the next new connection gets.
    pub closed spec fn next_id(&self) -> u64 {
        self.next_id
    }

    /// The number of sessions that are checked out and not yet released.
    pub closed spec fn live(&self) -> nat {
        self.live as nat
    }

    /// The pool's invariant: live sessions never exceed the maximum size.
    pub closed spec fn wf(&self) -> bool {
        self.live <= self.cfg.max_size
    }

    /// An empty pool; connection ids start at one.
    pub fn new(cfg: ConnectorConfig) -> (p: IdlePool<C>)
        ensures
            p.config() == cfg,
            p.idle() == Seq::<Pooled<C>>::empty(),
            p.next_id() == 1,
            p.live() == 0,
            p.wf(),
    {
        IdlePool { cfg, idle: Vec::new(), next_id: 1, live: 0 }
    }

    /// The number of idle connections.
    pub fn idle_count(&self) -> (n: usize)
        ensures
            n == self.idle().len(),
    {
        self.idle.len()
    }

    /// Takes the most recently returned idle connection, if any.
    pub fn take_idle(&mut self) -> (r: Option<Pooled<C>>)
        requires
            old(self).wf(),
        ensures
            final(self).wf(),
            final(self).live() == old(self).live(),
            final(self).config() == old(self).config(),
            final(self).next_id() == old(self).next_id(),
            old(self).idle().len() == 0 ==> r is None && final(self).idle() == old(self).idle(),
            old(self).idle().len() > 0 ==> r == Some(old(self).idle().last()) && final(self).idle()
                == old(self).idle().drop_last(),
    {
        self.idle.pop()
    }

    /// Puts a connection back as the most recently returned one, marked as
    /// used now.
    pub fn return_idle(&mut self, pooled: Pooled<C>)
        requires
            old(self).wf(),
        ensures
            final(self).wf(),
            final(self).live() == old(self).live(),
            final(self).config() == old(self).config(),
            final(self).next_id() == old(self).next_id(),
            final(self).idle().len() == old(self).idle().len() + 1,
            final(self).idle().drop_last() == old(self).idle(),
            final(self).idle().last().id == pooled.id,
            final(self).idle().last().conn == pooled.conn,
    {
        let mut pooled = pooled;
        pooled.last_used = instant_now();
        self.idle.push(pooled);
        proof {
            assert(self.idle@.drop_last() =~= old(self).idle@);
        }
    }

    /// Wraps a new connection with the next id, marked as used now; ids
    /// count up and wrap around.
    pub fn enroll(&mut self, conn: C) -> (p: Pooled<C>)
        requires
            old(self).wf(),
        ensures
            final(self).wf(),
            final(self).live() == old(self).live(),
            p.conn == conn,
            p.id == old(self).next_id(),
            final(self).next_id() == (if old(self).next_id() == u64::MAX {
                0
            } else {
                (old(self).next_id() + 1) as u64
            }),
            final(self).idle() == old(self).idle(),
            final(self).config() == old(self).config(),
    {
        let id = self.next_id;
        self.next_id = if self.next_id == u64::MAX {
            0
        } else {
            self.next_id + 1
        };
        Pooled { conn, last_used: instant_now(), id }
    }

    /// Whether a pooled connection must be recreated rather than reused:
    /// never without an idle limit; with one, whether its idle time, as the
    /// clock reads it, exceeds the limit.
    pub fn should_recycle(&self, pooled: &Pooled<C>) -> (b: bool)
        ensures
            exists|idle_for: Duration| idle_for.wf() && b == recycle_due_spec(self.config().max_idle, idle_for),
            self.config().max_idle is None ==> !b,
    {
        let idle_for = elapsed_since(&pooled.last_used);
        recycle_due(self.cfg.max_idle, idle_for)
    }

    /// The first step of a checkout: takes the most recently returned idle
    /// connection, if any, and tells whether it is due to be recreated.
    pub fn checkout_candidate(&mut self) -> (r: Candidate<C>)
        requires
            old(self).wf(),
        ensures
            final(self).wf(),
            final(self).live() == old(self).live(),
            final(self).config() == old(self).config(),
            final(self).next_id() == old(self).next_id(),
            old(self).idle().len() == 0 ==> r is Empty && final(self).idle() == old(self).idle(),
            old(self).idle().len() > 0 ==> final(self).idle() == old(self).idle().drop_last() && match r {
                Candidate::Stale(p) => p == old(self).idle().last(),
                Candidate::Fresh(p) => p == old(self).idle().last(),
                Candidate::Empty => false,
            },
            exists|idle_for: Duration| idle_for.wf() && (r is Stale <==> (old(self).idle().len() > 0
                && recycle_due_spec(old(self).config().max_idle, idle_for))),
    {
        match self.idle.pop() {
            None => {
                proof {
                    assert(Duration { secs: 0, nanos: 0 }.wf());
                }
                Candidate::Empty
            },
            Some(p) => {
                if self.should_recycle(&p) {
                    Candidate::Stale(p)
                } else {
                    Candidate::Fresh(p)
                }
            },
        }
    }

    /// The last step of a release, after the connection was reset (with
    /// outcome `reset_ok`) and, if that succeeded, checked (`healthy`): the
    /// session ends, and the connection goes back to the pool when both hold
    /// and it is not due to be recreated, and is handed back to be closed
    /// otherwise.
    pub fn finish_release(&mut self, pooled: Pooled<C>, reset_ok: bool, healthy: bool) -> (r: Option<Pooled<C>>)
        requires
            old(self).wf(),
        ensures
            final(self).wf(),
            final(self).live() == (if old(self).live() > 0 { old(self).live() - 1 } else { 0 }),
            final(self).config() == old(self).config(),
            final(self).next_id() == old(self).next_id(),
            r is Some ==> r == Some(pooled) && final(self).idle() == old(self).idle(),
            r is None ==> {
                &&& final(self).idle().len() == old(self).idle().len() + 1
                &&& final(self).idle().drop_last() == old(self).idle()
                &&& final(self).idle().last().id == pooled.id
                &&& final(self).idle().last().conn == pooled.conn
            },
            exists|idle_for: Duration| idle_for.wf() && (r is None <==> (reset_ok && healthy
                && !recycle_due_spec(old(self).config().max_idle, idle_for))),
    {
        self.end_session();
        let recycle = self.should_recycle(&pooled);
        if keeps_on_release(reset_ok, healthy, recycle) {
            self.return_idle(pooled);
            None
        } else {
            Some(pooled)
        }
    }

    /// Starts a session if fewer than the maximum size are live; whether it did.
    pub fn try_begin_session(&mut self) -> (ok: bool)
        requires
            old(self).wf(),
        ensures
            final(self).wf(),
            ok == (old(self).live() < old(self).config().max_size),
            final(self).live() == (if ok { old(self).live() + 1 } else { old(self).live() }),
            final(self).idle() == old(self).idle(),
            final(self).config() == old(self).config(),
            final(self).next_id() == old(self).next_id(),
    {
        if self.live < self.cfg.max_size {
            self.live = self.live + 1;
            true
        } else {
            false
        }
    }

    /// Ends a session that got no connection.
    pub fn end_session(&mut self)
        requires
            old(self).wf(),
        ensures
            final(self).wf(),
            final(self).live() == (if old(self).live() > 0 { old(self).live() - 1 } else { 0 }),
            final(self).idle() == old(self).idle(),
            final(self).config() == old(self).config(),
            final(self).next_id() == old(self).next_id(),
    {
        if self.live > 0 {
            self.live = self.live - 1;
        }
    }

    /// The number of live sessions, which never exceeds the maximum size.
    pub fn live_sessions(&self) -> (n: usize)
        requires
            self.wf(),
        ensures
            n == self.live(),
            n <= self.config().max_size,
    {
        self.live
    }

    /// How many connections prewarming should add: what is missing to the
    /// minimum size.
    pub fn prewarm_deficit(&self) -> (n: usize)
        ensures
            n == (if self.idle().len() < self.config().min_size {
                self.config().min_size - self.idle().len()
            } else {
                0
            }),
    {
        if self.idle.len() < self.cfg.min_size {
            self.cfg.min_size - self.idle.len()
        } else {
            0
        }
    }
}

} // verus!
