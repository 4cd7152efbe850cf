use crate::sources::{current_timestamp_ms, draw_in_range};
use crate::state::all_above_floor;
use crate::update::{
    apply_delta, next_price, PriceListener, PriceUpdate, BASE_PRICE_HIGH, BASE_PRICE_LOW,
    DELTA_BOUND, PRICE_FLOOR,
};
use vstd::prelude::*;

verus! {

/// The characters of each symbol.
pub open spec fn names(symbols: Seq<String>) -> Seq<Seq<char>> {
    symbols.map_values(|s: String| s@)
}

/// The symbols of `s` with repeats removed, each kept where it first occurs.
pub open spec fn first_occurrences(s: Seq<Seq<char>>) -> Seq<Seq<char>>
    decreases s.len(),
{
    if s.len() == 0 {
        Seq::empty()
    } else {
        let kept = first_occurrences(s.drop_last());
        if kept.contains(s.last()) {
            kept
        } else {
            kept.push(s.last())
        }
    }
}

/// The prices that a walk from `start` passes through, one per delta.
pub open spec fn walk(start: int, deltas: Seq<int>) -> Seq<int>
    decreases deltas.len(),
{
    if deltas.len() == 0 {
        Seq::empty()
    } else {
        let before = walk(start, deltas.drop_last());
        let from = if before.len() == 0 { start } else { before.last() };
        before.push(next_price(from, deltas.last()))
    }
}

/// However many steps a walk takes, and however far its deltas lean down, every
/// price that it passes through is at least `PRICE_FLOOR`.
pub proof fn lemma_walk_stays_above_floor(start: int, deltas: Seq<int>)
    ensures
        walk(start, deltas).len() == deltas.len(),
        forall|k: int| 0 <= k < deltas.len() ==> #[trigger] walk(start, deltas)[k] >= PRICE_FLOOR,
    decreases deltas.len(),
{
    if deltas.len() > 0 {
        lemma_walk_stays_above_floor(start, deltas.drop_last());
    }
}

/// `to` is where one random-walk step can take a price from `from`.
pub open spec fn one_step_apart(from: u64, to: u64) -> bool {
    exists|d: int| -DELTA_BOUND <= d < DELTA_BOUND && to as int == next_price(from as int, d)
}

/// Per-run state of the producer: each tracked symbol, once, with its current
/// price. Symbols keep one fixed order for the whole run.
pub struct SimulationContext {
    symbols: Vec<String>,
    prices: Vec<u64>,
}

impl SimulationContext {
    pub closed spec fn symbol_names(&self) -> Seq<Seq<char>> {
        names(self.symbols@)
    }

    /// Current price of each symbol, in the order of `symbol_names`.
    pub closed spec fn price_seq(&self) -> Seq<u64> {
        self.prices@
    }

    /// Symbols are distinct, there is one price per symbol, and no price is
    /// below the floor.
    pub open spec fn wf(&self) -> bool {
        &&& self.symbol_names().len() == self.price_seq().len()
        &&& self.symbol_names().no_duplicates()
        &&& forall|i: int| 0 <= i < self.price_seq().len() ==> #[trigger] self.price_seq()[i] >= PRICE_FLOOR
    }

    /// Starts a run: one entry per distinct symbol, in order of first occurrence,
    /// each with a base price drawn from `[BASE_PRICE_LOW, BASE_PRICE_HIGH)`.
    pub fn seed(symbols: Vec<String>) -> (ctx: Self)
        ensures
            ctx.wf(),
            ctx.symbol_names() == first_occurrences(names(symbols@)),
            forall|i: int| 0 <= i < ctx.price_seq().len() ==>
                BASE_PRICE_LOW <= #[trigger] ctx.price_seq()[i] < BASE_PRICE_HIGH,
    {
        let mut kept: Vec<String> = Vec::new();
        let mut prices: Vec<u64> = Vec::new();
        let mut rng = rand::thread_rng();
        let mut i: usize = 0;
        while i < symbols.len()
            invariant
                i <= symbols.len(),
                names(kept@) == first_occurrences(names(symbols@.take(i as int))),
                names(kept@).no_duplicates(),
                prices@.len() == kept@.len(),
                forall|k: int| 0 <= k < prices@.len() ==>
                    BASE_PRICE_LOW <= #[trigger] prices@[k] < BASE_PRICE_HIGH,
            decreases symbols.len() - i,
        {
            let symbol = &symbols[i];
            let mut seen = false;
            let mut j: usize = 0;
            while j < kept.len()
                invariant
                    j <= kept.len(),
                    seen == names(kept@).take(j as int).contains(symbol@),
                decreases kept.len() - j,
            {
                let ghost shorter = names(kept@).take(j as int);
                let ghost longer = names(kept@).take(j + 1);
                proof {
                    assert(longer == shorter.push(kept@[j as int]@));
                    if shorter.contains(symbol@) {
                        let k = choose|k: int| 0 <= k < shorter.len() && shorter[k] == symbol@;
                        assert(longer[k] == symbol@);
                    }
                    if longer.contains(symbol@) {
                        let k = choose|k: int| 0 <= k < longer.len() && longer[k] == symbol@;
                        if k < j {
                            assert(shorter[k] == symbol@);
                        }
                    }
                    assert(longer[j as int] == kept@[j as int]@);
                }
                if kept[j] == *symbol {
                    seen = true;
                }
                j = j + 1;
            }
            proof {
                assert(names(kept@).take(j as int) == names(kept@));
                assert(symbols@.take(i + 1).drop_last() == symbols@.take(i as int));
                assert(names(symbols@.take(i + 1)).drop_last() == names(symbols@.take(i as int)));
                assert(names(symbols@.take(i + 1)).last() == symbol@);
            }
            if !seen {
                let base = draw_in_range(&mut rng, BASE_PRICE_LOW as i64, BASE_PRICE_HIGH as i64);
                let ghost before = kept@;
                kept.push(symbol.clone());
                prices.push(base as u64);
                proof {
                    assert(names(kept@) == names(before).push(symbol@));
                }
            }
            i = i + 1;
        }
        proof {
            assert(symbols@.take(symbols@.len() as int) == symbols@);
        }
        SimulationContext { symbols: kept, prices }
    }

    /// Number of tracked symbols.
    pub fn len(&self) -> (n: usize)
        ensures
            n == self.symbol_names().len(),
    {
        self.symbols.len()
    }

    /// The `i`-th tracked symbol.
    pub fn symbol(&self, i: usize) -> (s: &String)
        requires
            i < self.symbol_names().len(),
        ensures
            s@ == self.symbol_names()[i as int],
    {
        &self.symbols[i]
    }

    /// The current price of the `i`-th tracked symbol.
    pub fn price(&self, i: usize) -> (p: u64)
        requires
            self.wf(),
            i < self.symbol_names().len(),
        ensures
            p == self.price_seq()[i as int],
    {
        self.prices[i]
    }

    /// Moves the price of the `i`-th symbol by `delta` and returns the quote
    /// for its new price, stamped with `timestamp_ms`.
    pub fn advance(&mut self, i: usize, delta: i64, timestamp_ms: i64) -> (u: PriceUpdate)
        requires
            old(self).wf(),
            i < old(self).symbol_names().len(),
        ensures
            final(self).wf(),
            final(self).symbol_names() == old(self).symbol_names(),
            final(self).price_seq() == old(self).price_seq().update(
                i as int,
                next_price(old(self).price_seq()[i as int] as int, delta as int) as u64,
            ),
            u.symbol@ == old(self).symbol_names()[i as int],
            u.price == final(self).price_seq()[i as int],
            u.price >= PRICE_FLOOR,
            u.timestamp_ms == timestamp_ms,
    {
        let price = apply_delta(self.prices[i], delta);
        self.prices.set(i, price);
        PriceUpdate { symbol: self.symbols[i].clone(), price, timestamp_ms }
    }

    /// One simulation step: for each symbol in the run's order, moves its price
    /// by a random delta in `[-DELTA_BOUND, DELTA_BOUND)`, stamps the quote with
    /// the wall clock and hands a copy of it to `listener`. Returns the step's
    /// quotes, one per symbol, in that order.
    pub fn step<L: PriceListener>(&mut self, listener: &L) -> (step: Vec<PriceUpdate>)
        requires
            old(self).wf(),
        ensures
            final(self).wf(),
            final(self).symbol_names() == old(self).symbol_names(),
            step@.len() == old(self).symbol_names().len(),
            all_above_floor(step@),
            forall|i: int| 0 <= i < step@.len() ==> {
                &&& (#[trigger] step@[i]).symbol@ == old(self).symbol_names()[i]
                &&& step@[i].price == final(self).price_seq()[i]
                &&& one_step_apart(old(self).price_seq()[i], final(self).price_seq()[i])
                &&& step@[i].timestamp_ms >= 0
            },
    {
        let n = self.len();
        let mut rng = rand::thread_rng();
        let mut step: Vec<PriceUpdate> = Vec::new();
        let mut i: usize = 0;
        while i < n
            invariant
                n == old(self).symbol_names().len(),
                i <= n,
                self.wf(),
                self.symbol_names() == old(self).symbol_names(),
                self.price_seq().len() == old(self).price_seq().len(),
                step@.len() == i,
                all_above_floor(step@),
                forall|k: int| i <= k < n ==> self.price_seq()[k] == old(self).price_seq()[k],
                forall|k: int| 0 <= k < i ==> {
                    &&& (#[trigger] step@[k]).symbol@ == old(self).symbol_names()[k]
                    &&& step@[k].price == self.price_seq()[k]
                    &&& one_step_apart(old(self).price_seq()[k], self.price_seq()[k])
                    &&& step@[k].timestamp_ms >= 0
                },
            decreases n - i,
        {
            let delta = draw_in_range(&mut rng, -DELTA_BOUND, DELTA_BOUND);
            let timestamp_ms = current_timestamp_ms();
            let update = self.advance(i, delta, timestamp_ms);
            proof {
                assert(one_step_apart(old(self).price_seq()[i as int], self.price_seq()[i as int]));
            }
            listener.on_price(update.duplicate());
            step.push(update);
            i = i + 1;
        }
        step
    }
}

} // verus!
