use crate::simulation::{first_occurrences, names, SimulationContext};
use crate::state::{all_above_floor, apply_op, drain_count, start_spec, EngineOp, EngineState, EngineView};
use crate::update::{PriceListener, PriceUpdate, BASE_PRICE_HIGH, BASE_PRICE_LOW};
use vstd::prelude::*;

verus! {

/// The caller-facing engine: the run and stop flags and the queue of pending
/// updates. Callers that share one engine between the producer and other
/// threads keep it behind a lock and hold that lock for one call at a time.
pub struct TickerEngine {
    state: EngineState,
}

impl View for TickerEngine {
    type V = EngineView;

    closed spec fn view(&self) -> EngineView {
        self.state@
    }
}

impl TickerEngine {
    /// No queued update is below the price floor.
    pub open spec fn wf(&self) -> bool {
        all_above_floor(self@.queue)
    }

    /// An engine with an empty queue, not running and not cancelled.
    pub fn new() -> (e: Self)
        ensures
            e.wf(),
            e@ == (EngineView { running: false, cancel: false, queue: Seq::empty() }),
    {
        TickerEngine { state: EngineState::new() }
    }

    /// Asks to start tracking `symbols`. When the list is non-empty and no run
    /// is active, marks a run active, clears any stale stop request and returns
    /// the new run's context, which the caller hands to a producer. Otherwise
    /// returns `None` and changes nothing.
    pub fn start_tracking(&mut self, symbols: Vec<String>) -> (run: Option<SimulationContext>)
        requires
            old(self).wf(),
        ensures
            final(self).wf(),
            (final(self)@, run is Some) == start_spec(old(self)@, symbols@.len() as nat),
            final(self)@ == apply_op(old(self)@, EngineOp::Start(symbols@.len() as nat)),
            run matches Some(ctx) ==> {
                &&& ctx.wf()
                &&& ctx.symbol_names() == first_occurrences(names(symbols@))
                &&& forall|i: int| 0 <= i < ctx.price_seq().len() ==>
                        BASE_PRICE_LOW <= #[trigger] ctx.price_seq()[i] < BASE_PRICE_HIGH
            },
    {
        if self.state.begin_run(symbols.len()) {
            Some(SimulationContext::seed(symbols))
        } else {
            None
        }
    }

    /// Asks the producer to stop after its current step; does not wait.
    pub fn cancel(&mut self)
        ensures
            final(self)@ == (EngineView { cancel: true, ..old(self)@ }),
            final(self)@ == apply_op(old(self)@, EngineOp::Cancel),
    {
        self.state.request_cancel();
    }

    /// Whether a stop has been requested since the current run began.
    pub fn is_cancelled(&self) -> (r: bool)
        ensures
            r == self@.cancel,
    {
        self.state.is_cancelled()
    }

    /// Whether a producer run is active.
    pub fn is_running(&self) -> (r: bool)
        ensures
            r == self@.running,
    {
        self.state.is_running()
    }

    /// Records that the producer has exited, so that a new run may start.
    pub fn finish_run(&mut self)
        ensures
            final(self)@ == (EngineView { running: false, ..old(self)@ }),
    {
        self.state.mark_stopped();
    }

    /// Queues the updates of one step, in order, after those already pending.
    pub fn publish(&mut self, step: &Vec<PriceUpdate>)
        requires
            old(self).wf(),
            all_above_floor(step@),
        ensures
            final(self).wf(),
            final(self)@ == (EngineView { queue: old(self)@.queue + step@, ..old(self)@ }),
            final(self)@ == apply_op(old(self)@, EngineOp::Publish(step@)),
    {
        self.state.publish(step);
    }

    /// Removes and returns up to `max` pending updates, oldest first.
    pub fn drain_updates(&mut self, max: u32) -> (updates: Vec<PriceUpdate>)
        requires
            old(self).wf(),
        ensures
            final(self).wf(),
            updates@.len() == drain_count(old(self)@.queue, max as nat),
            updates@ == old(self)@.queue.take(updates@.len() as int),
            final(self)@ == (EngineView {
                queue: old(self)@.queue.skip(updates@.len() as int),
                ..old(self)@
            }),
            final(self)@ == apply_op(old(self)@, EngineOp::Drain(max as nat)),
            all_above_floor(updates@),
    {
        self.state.drain(max)
    }

    /// One simulation step of `ctx` (see `SimulationContext::step`), whose
    /// updates are then queued.
    pub fn run_step<L: PriceListener>(&mut self, ctx: &mut SimulationContext, listener: &L) -> (step: Vec<PriceUpdate>)
        requires
            old(self).wf(),
            old(ctx).wf(),
        ensures
            final(self).wf(),
            final(ctx).wf(),
            final(ctx).symbol_names() == old(ctx).symbol_names(),
            step@.len() == old(ctx).symbol_names().len(),
            forall|i: int| 0 <= i < step@.len() ==> {
                &&& (#[trigger] step@[i]).symbol@ == old(ctx).symbol_names()[i]
                &&& step@[i].price == final(ctx).price_seq()[i]
            },
            all_above_floor(step@),
            final(self)@ == (EngineView { queue: old(self)@.queue + step@, ..old(self)@ }),
    {
        let step = ctx.step(listener);
        self.publish(&step);
        step
    }
}

} // verus!
