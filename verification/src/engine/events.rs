//! Events and the bounded first-in first-out queue that carries them.

use vstd::prelude::*;
use crate::time::{Timestamp, utc_now};

verus! {

/// Where an event came from.
#[derive(Debug, PartialEq, Eq)]
pub enum EventSource {
    Gateway,
    Database,
    ModelManager,
    Service,
    Other(String),
}

/// What happened.
#[derive(Debug, PartialEq, Eq)]
pub enum EventKind {
    PositionChanged,
    SyncCompleted,
    Custom(String),
}

/// An event with a unique id and its creation time.
#[derive(Debug)]
pub struct Event {
    /// The 128 bits of a random (version 4) UUID.
    pub id: u128,
    pub kind: EventKind,
    pub source: EventSource,
    pub created_at: Timestamp,
}

/// Fills 16 bytes from the system's source of randomness with
/// `getrandom::fill`; `None` when that source fails. Nothing is promised of
/// the bytes: they are random.
#[verifier::external_body]
fn random_bytes() -> (r: Option<[u8; 16]>) {
    let mut bytes = [0u8; 16];
    getrandom::fill(&mut bytes).ok()?;
    Some(bytes)
}

/// The bytes of a version-4 (random) UUID made from `b`: the high nibble of
/// byte 6 becomes 4 (the version) and the two high bits of byte 8 become
/// `10` (the RFC 4122 variant).
pub open spec fn v4_bytes(b: Seq<u8>) -> Seq<u8> {
    b.update(6, (b[6] & 0x0f) | 0x40).update(8, (b[8] & 0x3f) | 0x80)
}

/// The number whose big-endian bytes are `b`.
pub open spec fn big_endian(b: Seq<u8>) -> int
    decreases b.len(),
{
    if b.len() == 0 {
        0
    } else {
        big_endian(b.drop_last()) * 256 + b.last()
    }
}

/// The 128 bits (`Uuid::as_u128`, big-endian) of the UUID that
/// `uuid::Builder::from_random_bytes` makes from `bytes`: the bytes with the
/// version and variant bits set (`with_variant(RFC4122)`, `with_version(Random)`).
#[verifier::external_body]
fn uuid_v4_bits(bytes: [u8; 16]) -> (id: u128)
    ensures
        id == big_endian(v4_bytes(bytes@)),
{
    uuid::Builder::from_random_bytes(bytes).into_uuid().as_u128()
}

impl Event {
    /// An event whose id is the version-4 UUID made from `random`, created at
    /// `created_at`.
    pub fn with_random_id(kind: EventKind, source: EventSource, random: [u8; 16], created_at: Timestamp) -> (e: Event)
        ensures
            e.id == big_endian(v4_bytes(random@)),
            e.kind == kind,
            e.source == source,
            e.created_at == created_at,
    {
        let id = uuid_v4_bits(random);
        Event { id, kind, source, created_at }
    }

    /// A new event with a fresh random id, created now; `None` when the
    /// system's source of randomness fails.
    pub fn new(kind: EventKind, source: EventSource) -> (e: Option<Event>)
        ensures
            e matches Some(ev) ==> ev.kind == kind && ev.source == source && exists|b: Seq<u8>| b.len() == 16
                && ev.id == big_endian(v4_bytes(b)),
    {
        match random_bytes() {
            Some(bytes) => {
                let created_at = utc_now();
                Some(Event::with_random_id(kind, source, bytes, created_at))
            },
            None => None,
        }
    }
}

/// An event as stored in the queue, with the time at which it arrived there.
#[derive(Debug)]
pub struct EventEnvelope {
    pub event: Event,
    pub arrived_at: Timestamp,
}

/// Why a queue operation did not take place.
#[derive(Clone, Copy, Debug, PartialEq, Eq, Structural)]
pub enum QueueError {
    Full,
    Empty,
    Busy,
}

/// The slot of the ring that holds the `i`-th element counted from `head`.
pub open spec fn ring_slot(head: int, i: int, cap: int) -> int {
    if head + i < cap {
        head + i
    } else {
        head + i - cap
    }
}

impl Clone for EventSource {
    /// The same source.
    fn clone(&self) -> (s: EventSource)
        ensures
            s == *self,
    {
        match self {
            EventSource::Gateway => EventSource::Gateway,
            EventSource::Database => EventSource::Database,
            EventSource::ModelManager => EventSource::ModelManager,
            EventSource::Service => EventSource::Service,
            EventSource::Other(n) => EventSource::Other(n.clone()),
        }
    }
}

impl Clone for EventKind {
    /// The same kind.
    fn clone(&self) -> (k: EventKind)
        ensures
            k == *self,
    {
        match self {
            EventKind::PositionChanged => EventKind::PositionChanged,
            EventKind::SyncCompleted => EventKind::SyncCompleted,
            EventKind::Custom(n) => EventKind::Custom(n.clone()),
        }
    }
}

impl Clone for Event {
    /// The same event: same id, kind, source and creation time.
    fn clone(&self) -> (e: Event)
        ensures
            e == *self,
    {
        Event { id: self.id, kind: self.kind.clone(), source: self.source.clone(), created_at: self.created_at }
    }
}

impl Clone for EventEnvelope {
    /// The same envelope.
    fn clone(&self) -> (e: EventEnvelope)
        ensures
            e == *self,
    {
        EventEnvelope { event: self.event.clone(), arrived_at: self.arrived_at }
    }
}

/// A fixed-capacity ring buffer of optional slots.
struct RingState<T> {
    buf: Vec<Option<T>>,
    head: usize,
    tail: usize,
    len: usize,
}

impl<T> RingState<T> {
    spec fn wf(&self) -> bool {
        let cap = self.buf@.len() as int;
        &&& cap > 0
        &&& self.head < cap
        &&& self.tail < cap
        &&& self.len <= cap
        &&& self.tail == ring_slot(self.head as int, self.len as int, cap)
            || (self.len == cap && self.tail == self.head)
        &&& forall|i: int|
            0 <= i < self.len ==> (#[trigger] self.buf@[ring_slot(
                self.head as int,
                i,
                cap,
            )]) is Some
    }

    spec fn contents(&self) -> Seq<T> {
        Seq::new(
            self.len as nat,
            |i: int| self.buf@[ring_slot(self.head as int, i, self.buf@.len() as int)]->0,
        )
    }

    fn new(capacity: usize) -> (r: Self)
        requires
            capacity > 0,
        ensures
            r.wf(),
            r.buf@.len() == capacity,
            r.contents() == Seq::<T>::empty(),
    {
        let mut buf: Vec<Option<T>> = Vec::new();
        let mut i: usize = 0;
        while i < capacity
            invariant
                i <= capacity,
                buf@.len() == i,
            decreases capacity - i,
        {
            buf.push(None);
            i = i + 1;
        }
        RingState { buf, head: 0, tail: 0, len: 0 }
    }

    fn capacity(&self) -> (c: usize)
        ensures
            c == self.buf@.len(),
    {
        self.buf.len()
    }

    fn is_full(&self) -> (b: bool)
        ensures
            b == (self.len == self.buf@.len()),
    {
        self.len == self.capacity()
    }

    fn is_empty(&self) -> (b: bool)
        ensures
            b == (self.len == 0),
    {
        self.len == 0
    }

    fn push(&mut self, item: T) -> (r: Result<(), QueueError>)
        requires
            old(self).wf(),
        ensures
            final(self).wf(),
            final(self).buf@.len() == old(self).buf@.len(),
            old(self).len == old(self).buf@.len() ==> r == Err::<(), QueueError>(QueueError::Full)
                && final(self).contents() == old(self).contents(),
            old(self).len < old(self).buf@.len() ==> r is Ok && final(self).contents()
                == old(self).contents().push(item),
    {
        if self.is_full() {
            return Err(QueueError::Full);
        }
        let ghost old_contents = self.contents();
        let ghost cap = self.buf@.len() as int;
        let tail = self.tail;
        let cap_now = self.buf.len();
        self.buf.set(tail, Some(item));
        self.tail = if tail + 1 == cap_now {
            0
        } else {
            tail + 1
        };
        self.len = self.len + 1;
        assert(self.contents() =~= old_contents.push(item));
        Ok(())
    }

    fn pop(&mut self) -> (r: Result<T, QueueError>)
        requires
            old(self).wf(),
        ensures
            final(self).wf(),
            final(self).buf@.len() == old(self).buf@.len(),
            old(self).len == 0 ==> r == Err::<T, QueueError>(QueueError::Empty)
                && final(self).contents() == old(self).contents(),
            old(self).len > 0 ==> r == Ok::<T, QueueError>(old(self).contents()[0])
                && final(self).contents() == old(self).contents().drop_first(),
    {
        if self.is_empty() {
            return Err(QueueError::Empty);
        }
        let ghost old_contents = self.contents();
        let ghost cap = self.buf@.len() as int;
        let head = self.head;
        let mut slot: Option<T> = None;
        let cap_now = self.buf.len();
        self.buf.set_and_swap(head, &mut slot);
        assert(slot == Some(old_contents[0])) by {
            assert(old(self).buf@[ring_slot(head as int, 0, cap)] is Some);
        }
        let item = match slot {
            Some(item) => item,
            None => {
                return Err(QueueError::Empty);
            },
        };
        self.head = if head + 1 == cap_now {
            0
        } else {
            head + 1
        };
        self.len = self.len - 1;
        assert forall|i: int| 0 <= i < self.len implies (#[trigger] self.buf@[ring_slot(
            self.head as int,
            i,
            cap,
        )]) is Some by {
            assert(ring_slot(self.head as int, i, cap) == ring_slot(head as int, i + 1, cap));
            assert(old(self).buf@[ring_slot(head as int, i + 1, cap)] is Some);
        }
        assert(self.contents() =~= old_contents.drop_first()) by {
            assert forall|i: int| 0 <= i < self.len implies ring_slot(self.head as int, i, cap)
                == ring_slot(head as int, i + 1, cap) by {}
        }
        Ok(item)
    }
}

/// A bounded first-in first-out queue of events.
///
/// Pushing onto a full queue and popping from an empty one fail at once with
/// `QueueError::Full` and `QueueError::Empty`; waiting for room or for an event
/// is left to the caller.
pub struct EventQueue {
    ring: RingState<EventEnvelope>,
}

impl View for EventQueue {
    type V = Seq<EventEnvelope>;

    /// The queued envelopes, oldest first.
    closed spec fn view(&self) -> Seq<EventEnvelope> {
        self.ring.contents()
    }
}

impl EventQueue {
    /// The queue's internal invariant.
    pub closed spec fn wf(&self) -> bool {
        self.ring.wf()
    }

    /// The number of envelopes the queue can hold.
    pub closed spec fn spec_capacity(&self) -> nat {
        self.ring.buf@.len()
    }

    /// An empty queue with room for `capacity` envelopes.
    pub fn new(capacity: usize) -> (q: EventQueue)
        requires
            capacity > 0,
        ensures
            q.wf(),
            q@ == Seq::<EventEnvelope>::empty(),
            q.spec_capacity() == capacity,
    {
        EventQueue { ring: RingState::new(capacity) }
    }

    /// The number of envelopes the queue can hold.
    pub fn capacity(&self) -> (c: usize)
        ensures
            c == self.spec_capacity(),
    {
        self.ring.capacity()
    }

    /// The number of queued envelopes.
    pub fn len(&self) -> (n: usize)
        requires
            self.wf(),
        ensures
            n == self@.len(),
    {
        self.ring.len
    }

    /// Whether no envelope is queued.
    pub fn is_empty(&self) -> (b: bool)
        requires
            self.wf(),
        ensures
            b == (self@.len() == 0),
    {
        self.ring.is_empty()
    }

    /// Whether the queue holds as many envelopes as it has room for.
    pub fn is_full(&self) -> (b: bool)
        requires
            self.wf(),
        ensures
            b == (self@.len() == self.spec_capacity()),
    {
        self.ring.is_full()
    }

    /// Appends `event`, stamped as arrived at `arrived_at`, unless the queue is full.
    pub fn try_push_at(&mut self, event: Event, arrived_at: Timestamp) -> (r: Result<(), QueueError>)
        requires
            old(self).wf(),
        ensures
            final(self).wf(),
            final(self).spec_capacity() == old(self).spec_capacity(),
            old(self)@.len() == old(self).spec_capacity() ==> r == Err::<(), QueueError>(
                QueueError::Full,
            ) && final(self)@ == old(self)@,
            old(self)@.len() < old(self).spec_capacity() ==> r is Ok && final(self)@ == old(self)@.push(EventEnvelope { event, arrived_at }),
    {
        self.ring.push(EventEnvelope { event, arrived_at })
    }

    /// Appends `event`, stamped with the current time, unless the queue is full.
    pub fn try_push(&mut self, event: Event) -> (r: Result<(), QueueError>)
        requires
            old(self).wf(),
        ensures
            final(self).wf(),
            final(self).spec_capacity() == old(self).spec_capacity(),
            old(self)@.len() == old(self).spec_capacity() ==> r == Err::<(), QueueError>(
                QueueError::Full,
            ) && final(self)@ == old(self)@,
            old(self)@.len() < old(self).spec_capacity() ==> r is Ok && final(self)@.len()
                == old(self)@.len() + 1 && final(self)@.drop_last() == old(self)@ && final(self)@.last().event == event,
            push_outcome(*old(self), *final(self), r),
    {
        if self.ring.is_full() {
            return Err(QueueError::Full);
        }
        let now = utc_now();
        let r = self.try_push_at(event, now);
        proof {
            assert(self@.drop_last() =~= old(self)@);
        }
        r
    }

    /// Removes and returns the oldest envelope, unless the queue is empty.
    pub fn try_pop(&mut self) -> (r: Result<EventEnvelope, QueueError>)
        requires
            old(self).wf(),
        ensures
            final(self).wf(),
            final(self).spec_capacity() == old(self).spec_capacity(),
            old(self)@.len() == 0 ==> r == Err::<EventEnvelope, QueueError>(QueueError::Empty)
                && final(self)@ == old(self)@,
            old(self)@.len() > 0 ==> r == Ok::<EventEnvelope, QueueError>(old(self)@[0])
                && final(self)@ == old(self)@.drop_first(),
    {
        self.ring.pop()
    }
}

/// A queue never holds more envelopes than it has room for.
pub proof fn lemma_queue_bounded(q: &EventQueue)
    requires
        q.wf(),
    ensures
        q@.len() <= q.spec_capacity(),
        q.spec_capacity() > 0,
{
}

/// Whether `r` and the queue `new` are what a push gives on the queue `old`:
/// accepted, with one more envelope, while there is room; refused as `Full`,
/// with nothing changed, when the queue is full.
pub open spec fn push_outcome(old: EventQueue, new: EventQueue, r: Result<(), QueueError>) -> bool {
    &&& new.spec_capacity() == old.spec_capacity()
    &&& old@.len() < old.spec_capacity() ==> r is Ok && new@.len() == old@.len() + 1
    &&& old@.len() >= old.spec_capacity() ==> r == Err::<(), QueueError>(QueueError::Full) && new@ == old@
}

/// After the first `k` of a run of pushes into an empty queue, it holds
/// `min(k, capacity)` envelopes.
proof fn lemma_push_run_lengths(qs: Seq<EventQueue>, rs: Seq<Result<(), QueueError>>, k: int)
    requires
        qs.len() == rs.len() + 1,
        qs[0]@.len() == 0,
        forall|i: int| 0 <= i < rs.len() ==> #[trigger] push_outcome(qs[i], qs[i + 1], rs[i]),
        0 <= k <= rs.len(),
    ensures
        qs[k].spec_capacity() == qs[0].spec_capacity(),
        qs[k]@.len() == (if k < qs[0].spec_capacity() { k } else { qs[0].spec_capacity() as int }),
    decreases k,
{
    if k > 0 {
        let j = k - 1;
        lemma_push_run_lengths(qs, rs, j);
        assert(push_outcome(qs[j], qs[j + 1], rs[j]));
        assert(j + 1 == k);
    }
}

/// Into an empty queue of capacity `cap`, exactly `cap` pushes in a row are
/// accepted; every push after them is refused as `Full`.
pub proof fn lemma_empty_queue_takes_capacity(qs: Seq<EventQueue>, rs: Seq<Result<(), QueueError>>)
    requires
        qs.len() == rs.len() + 1,
        qs[0]@.len() == 0,
        forall|i: int| 0 <= i < rs.len() ==> #[trigger] push_outcome(qs[i], qs[i + 1], rs[i]),
    ensures
        forall|i: int| 0 <= i < rs.len() ==> (#[trigger] rs[i] is Ok <==> i < qs[0].spec_capacity()),
        forall|i: int| qs[0].spec_capacity() <= i < rs.len() ==> #[trigger] rs[i] == Err::<(), QueueError>(
            QueueError::Full,
        ),
{
    assert forall|i: int| 0 <= i < rs.len() implies (#[trigger] rs[i] is Ok <==> i < qs[0].spec_capacity()) && (
    qs[0].spec_capacity() <= i ==> rs[i] == Err::<(), QueueError>(QueueError::Full)) by {
        lemma_push_run_lengths(qs, rs, i);
        assert(push_outcome(qs[i], qs[i + 1], rs[i]));
    }
}

/// Pushing never overtakes: after `e` is appended to the queued envelopes
/// `q`, popping yields the envelopes of `q` first, in their order, and `e`
/// only after them.
pub proof fn lemma_queue_fifo(q: Seq<EventEnvelope>, e: EventEnvelope)
    ensures
        q.len() > 0 ==> q.push(e)[0] == q[0] && q.push(e).drop_first() == q.drop_first().push(e),
        q.len() == 0 ==> q.push(e)[0] == e && q.push(e).drop_first() == Seq::<EventEnvelope>::empty(),
        forall|i: int| 0 <= i < q.len() ==> #[trigger] q.push(e)[i] == q[i],
        q.push(e)[q.len() as int] == e,
{
    assert(q.len() > 0 ==> q.push(e).drop_first() =~= q.drop_first().push(e));
    assert(q.len() == 0 ==> q.push(e).drop_first() =~= Seq::<EventEnvelope>::empty());
}

} // verus!
