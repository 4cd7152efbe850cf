use crate::update::{PriceUpdate, PRICE_FLOOR};
use std::collections::VecDeque;
use vstd::prelude::*;

verus! {

/// What an `EngineState` holds, as mathematical values.
pub ghost struct EngineView {
    pub running: bool,
    pub cancel: bool,
    pub queue: Seq<PriceUpdate>,
}

/// How many updates a drain of at most `max` items takes from `queue`.
pub open spec fn drain_count(queue: Seq<PriceUpdate>, max: nat) -> nat {
    if max < queue.len() { max } else { queue.len() }
}

/// The state after a start request for `n_symbols` symbols, and whether a new
/// producer run was granted. An empty symbol list, or a run already active,
/// leaves the state as it was.
pub open spec fn start_spec(s: EngineView, n_symbols: nat) -> (EngineView, bool) {
    if n_symbols == 0 || s.running {
        (s, false)
    } else {
        (EngineView { running: true, cancel: false, queue: s.queue }, true)
    }
}

/// Every update is at or above the price floor.
pub open spec fn all_above_floor(updates: Seq<PriceUpdate>) -> bool {
    forall|i: int| 0 <= i < updates.len() ==> #[trigger] updates[i].price >= PRICE_FLOOR
}

/// The data shared between the producer and the callers: whether a producer
/// runs, whether it was asked to stop, and the updates not yet drained, oldest
/// first.
pub struct EngineState {
    running: bool,
    cancel: bool,
    queue: VecDeque<PriceUpdate>,
}

impl View for EngineState {
    type V = EngineView;

    closed spec fn view(&self) -> EngineView {
        EngineView { running: self.running, cancel: self.cancel, queue: self.queue@ }
    }
}

impl EngineState {
    /// No queued update is below the price floor.
    pub open spec fn wf(&self) -> bool {
        all_above_floor(self@.queue)
    }

    /// A fresh state: not running, not cancelled, nothing queued.
    pub fn new() -> (s: Self)
        ensures
            s.wf(),
            s@ == (EngineView { running: false, cancel: false, queue: Seq::empty() }),
    {
        EngineState { running: false, cancel: false, queue: VecDeque::new() }
    }

    /// Test-and-set of the running flag: succeeds, and marks a run active,
    /// exactly when no run was active.
    pub fn try_acquire_run(&mut self) -> (acquired: bool)
        ensures
            acquired == !old(self)@.running,
            final(self)@ == (EngineView { running: true, ..old(self)@ }),
    {
        let acquired = !self.running;
        self.running = true;
        acquired
    }

    /// Asks the producer to stop; repeating it changes nothing more.
    pub fn request_cancel(&mut self)
        ensures
            final(self)@ == (EngineView { cancel: true, ..old(self)@ }),
            final(self)@ == apply_op(old(self)@, EngineOp::Cancel),
    {
        self.cancel = true;
    }

    /// Clears a stale stop request before a new run begins.
    pub fn reset_for_new_run(&mut self)
        ensures
            final(self)@ == (EngineView { cancel: false, ..old(self)@ }),
    {
        self.cancel = false;
    }

    pub fn is_cancelled(&self) -> (r: bool)
        ensures
            r == self@.cancel,
    {
        self.cancel
    }

    pub fn is_running(&self) -> (r: bool)
        ensures
            r == self@.running,
    {
        self.running
    }

    /// Records that the producer has exited.
    pub fn mark_stopped(&mut self)
        ensures
            final(self)@ == (EngineView { running: false, ..old(self)@ }),
    {
        self.running = false;
    }

    /// A start request for `n_symbols` symbols: grants a run only when there
    /// are symbols and no run is active, and then clears the stop request.
    pub fn begin_run(&mut self, n_symbols: usize) -> (granted: bool)
        ensures
            (final(self)@, granted) == start_spec(old(self)@, n_symbols as nat),
            final(self)@ == apply_op(old(self)@, EngineOp::Start(n_symbols as nat)),
    {
        if n_symbols == 0 {
            return false;
        }
        if !self.try_acquire_run() {
            return false;
        }
        self.reset_for_new_run();
        true
    }

    /// Appends an update at the tail of the queue.
    pub fn enqueue(&mut self, update: PriceUpdate)
        requires
            old(self).wf(),
            update.price >= PRICE_FLOOR,
        ensures
            final(self).wf(),
            final(self)@ == (EngineView { queue: old(self)@.queue.push(update), ..old(self)@ }),
    {
        self.queue.push_back(update);
    }

    /// Appends the updates of one step at the tail of the queue, in order.
    pub fn publish(&mut self, updates: &Vec<PriceUpdate>)
        requires
            old(self).wf(),
            all_above_floor(updates@),
        ensures
            final(self).wf(),
            final(self)@ == (EngineView { queue: old(self)@.queue + updates@, ..old(self)@ }),
            final(self)@ == apply_op(old(self)@, EngineOp::Publish(updates@)),
    {
        let mut i: usize = 0;
        while i < updates.len()
            invariant
                i <= updates@.len(),
                self.wf(),
                self@ == (EngineView { queue: old(self)@.queue + updates@.take(i as int), ..old(self)@ }),
                all_above_floor(updates@),
            decreases updates@.len() - i,
        {
            let update = updates[i].duplicate();
            proof {
                assert(updates@.take(i + 1) == updates@.take(i as int).push(update));
                assert(old(self)@.queue + updates@.take(i + 1) == (old(self)@.queue + updates@.take(i as int)).push(update));
            }
            self.enqueue(update);
            i = i + 1;
        }
        proof {
            assert(updates@.take(i as int) == updates@);
        }
    }

    /// Removes and returns up to `max` updates from the head of the queue,
    /// oldest first.
    pub fn drain(&mut self, max: u32) -> (taken: Vec<PriceUpdate>)
        requires
            old(self).wf(),
        ensures
            final(self).wf(),
            taken@.len() == drain_count(old(self)@.queue, max as nat),
            taken@ == old(self)@.queue.take(taken@.len() as int),
            final(self)@ == (EngineView {
                queue: old(self)@.queue.skip(taken@.len() as int),
                ..old(self)@
            }),
            final(self)@ == apply_op(old(self)@, EngineOp::Drain(max as nat)),
            all_above_floor(taken@),
    {
        let mut taken: Vec<PriceUpdate> = Vec::new();
        let mut n: u32 = 0;
        proof {
            assert(old(self)@.queue.skip(0) == old(self)@.queue);
        }
        while n < max
            invariant
                n <= max,
                taken@.len() == n,
                n <= old(self)@.queue.len(),
                taken@ == old(self)@.queue.take(n as int),
                self@ == (EngineView { queue: old(self)@.queue.skip(n as int), ..old(self)@ }),
                all_above_floor(old(self)@.queue),
            ensures
                n == max || n == old(self)@.queue.len(),
            decreases max - n,
        {
            match self.queue.pop_front() {
                Some(update) => {
                    proof {
                        assert(old(self)@.queue.take(n + 1) == old(self)@.queue.take(n as int).push(update));
                        assert(old(self)@.queue.skip(n + 1) == old(self)@.queue.skip(n as int).skip(1));
                    }
                    taken.push(update);
                    n = n + 1;
                },
                None => {
                    break;
                },
            }
        }
        proof {
            assert(all_above_floor(self@.queue)) by {
                assert forall|i: int| 0 <= i < self@.queue.len() implies #[trigger] self@.queue[i].price >= PRICE_FLOOR by {
                    assert(self@.queue[i] == old(self)@.queue[i + n]);
                }
            }
        }
        taken
    }
}

/// The updates that successive drains of at most `maxes[0]`, `maxes[1]`, ...
/// items hand out, joined in call order, and what the queue keeps afterwards.
pub open spec fn drain_all(queue: Seq<PriceUpdate>, maxes: Seq<nat>) -> (Seq<PriceUpdate>, Seq<PriceUpdate>)
    decreases maxes.len(),
{
    if maxes.len() == 0 {
        (Seq::empty(), queue)
    } else {
        let (taken, rest) = drain_all(queue, maxes.drop_last());
        let n = drain_count(rest, maxes.last());
        (taken + rest.take(n as int), rest.skip(n as int))
    }
}

/// Draining in any number of calls, with any limits, hands out the queued
/// updates in the order they were queued, with no repeat and no gap: what was
/// handed out, followed by what is left, is the queue itself.
pub proof fn lemma_drains_keep_order(queue: Seq<PriceUpdate>, maxes: Seq<nat>)
    ensures
        drain_all(queue, maxes).0 + drain_all(queue, maxes).1 == queue,
    decreases maxes.len(),
{
    if maxes.len() > 0 {
        lemma_drains_keep_order(queue, maxes.drop_last());
        let (taken, rest) = drain_all(queue, maxes.drop_last());
        let n = drain_count(rest, maxes.last());
        assert(rest.take(n as int) + rest.skip(n as int) == rest);
        assert((taken + rest.take(n as int)) + rest.skip(n as int) == taken + rest);
    }
}

/// Of two start requests in a row, whatever their symbols, at most one is
/// granted; once the first is granted a run is active and the second changes
/// nothing: at most one producer runs.
pub proof fn lemma_second_start_is_no_op(s: EngineView, first: nat, second: nat)
    ensures
        ({
            let (after_first, granted_first) = start_spec(s, first);
            let (after_second, granted_second) = start_spec(after_first, second);
            &&& !(granted_first && granted_second)
            &&& granted_first ==> after_first.running && after_second == after_first
        }),
{
}

/// A start request with no symbols never starts a run and leaves the state
/// as it was.
pub proof fn lemma_empty_start_is_no_op(s: EngineView)
    ensures
        start_spec(s, 0) == (s, false),
{
}

/// An operation on the shared state: a start request for some number of
/// symbols, a stop request, a drain of at most some number of updates, or the
/// producer queueing the updates of a step.
pub ghost enum EngineOp {
    Start(nat),
    Cancel,
    Drain(nat),
    Publish(Seq<PriceUpdate>),
}

pub open spec fn apply_op(s: EngineView, op: EngineOp) -> EngineView {
    match op {
        EngineOp::Start(n) => start_spec(s, n).0,
        EngineOp::Cancel => EngineView { cancel: true, ..s },
        EngineOp::Drain(max) => EngineView { queue: s.queue.skip(drain_count(s.queue, max) as int), ..s },
        EngineOp::Publish(updates) => EngineView { queue: s.queue + updates, ..s },
    }
}

pub open spec fn apply_ops(s: EngineView, ops: Seq<EngineOp>) -> EngineView
    decreases ops.len(),
{
    if ops.len() == 0 {
        s
    } else {
        apply_op(apply_ops(s, ops.drop_last()), ops.last())
    }
}

/// A stop request made while a run is active stays in force, and the run stays
/// the only one, through any interleaving of starts, stop requests, drains and
/// queued updates, until the producer itself marks the run stopped: the next
/// time the producer checks, between two steps, it sees the request.
pub proof fn lemma_cancel_stays_until_stopped(s: EngineView, ops: Seq<EngineOp>)
    requires
        s.running,
    ensures
        apply_ops(EngineView { cancel: true, ..s }, ops).cancel,
        apply_ops(EngineView { cancel: true, ..s }, ops).running,
    decreases ops.len(),
{
    if ops.len() > 0 {
        lemma_cancel_stays_until_stopped(s, ops.drop_last());
    }
}

} // verus!
