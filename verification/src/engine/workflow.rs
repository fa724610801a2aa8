//! The workflow engine drains a bounded number of events per tick.

use vstd::prelude::*;
use crate::engine::events::{EventEnvelope, EventQueue};

verus! {

/// The number of events handled per tick when no budget is set.
pub const DEFAULT_MAX_PER_TICK: usize = 32;

/// Takes events off the queue in bounded batches, which keeps each tick's
/// running time predictable.
pub struct WorkflowEngine {
    max_per_tick: usize,
}

/// The number of events a tick with budget `budget` takes from a queue of `len` events.
pub open spec fn batch_len(budget: int, len: int) -> int {
    if budget < len {
        budget
    } else {
        len
    }
}

impl WorkflowEngine {
    /// The most events one tick handles.
    pub closed spec fn budget(&self) -> nat {
        self.max_per_tick as nat
    }

    /// An engine with the default budget.
    pub fn new() -> (w: WorkflowEngine)
        ensures
            w.budget() == DEFAULT_MAX_PER_TICK,
    {
        WorkflowEngine { max_per_tick: DEFAULT_MAX_PER_TICK }
    }

    /// The same engine with a budget of `max_per_tick`, raised to 1 if it is 0.
    pub fn with_budget(self, max_per_tick: usize) -> (w: WorkflowEngine)
        ensures
            w.budget() == if max_per_tick == 0 { 1 } else { max_per_tick },
    {
        let budget = if max_per_tick < 1 { 1 } else { max_per_tick };
        WorkflowEngine { max_per_tick: budget }
    }

    /// The most events one tick handles.
    pub fn max_per_tick(&self) -> (n: usize)
        ensures
            n == self.budget(),
    {
        self.max_per_tick
    }

    /// One tick: takes up to the budget of events off the front of the queue,
    /// stops early when it is empty, and returns them, oldest first, for handling.
    pub fn tick(&self, queue: &mut EventQueue) -> (handled: Vec<EventEnvelope>)
        requires
            old(queue).wf(),
        ensures
            final(queue).wf(),
            final(queue).spec_capacity() == old(queue).spec_capacity(),
            handled@ == old(queue)@.take(batch_len(self.budget() as int, old(queue)@.len() as int)),
            final(queue)@ == old(queue)@.skip(batch_len(self.budget() as int, old(queue)@.len() as int)),
    {
        let mut handled: Vec<EventEnvelope> = Vec::new();
        let mut i: usize = 0;
        while i < self.max_per_tick
            invariant
                queue.wf(),
                queue.spec_capacity() == old(queue).spec_capacity(),
                i <= self.max_per_tick,
                i <= old(queue)@.len(),
                handled@ == old(queue)@.take(i as int),
                queue@ == old(queue)@.skip(i as int),
            decreases self.max_per_tick - i,
        {
            match queue.try_pop() {
                Ok(env) => {
                    proof {
                        assert(old(queue)@.take(i + 1) =~= old(queue)@.take(i as int).push(env));
                        assert(old(queue)@.skip(i + 1) =~= old(queue)@.skip(i as int).drop_first());
                    }
                    handled.push(env);
                    i = i + 1;
                },
                Err(_) => {
                    proof {
                        assert(i == old(queue)@.len());
                    }
                    return handled;
                },
            }
        }
        handled
    }
}

} // verus!
