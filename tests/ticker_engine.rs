use std::collections::HashMap;
use std::sync::Mutex;
use ticker_core::{PriceListener, PriceUpdate, TickerEngine, PRICE_FLOOR};

struct Recorder {
    seen: Mutex<Vec<PriceUpdate>>,
}

impl Recorder {
    fn new() -> Self {
        Recorder { seen: Mutex::new(Vec::new()) }
    }

    fn taken(&self) -> Vec<PriceUpdate> {
        self.seen.lock().unwrap().clone()
    }
}

impl PriceListener for Recorder {
    fn on_price(&self, update: PriceUpdate) {
        self.seen.lock().unwrap().push(update);
    }
}

fn symbols(names: &[&str]) -> Vec<String> {
    names.iter().map(|s| s.to_string()).collect()
}

#[test]
fn fresh_engine_is_idle() {
    let mut engine = TickerEngine::new();
    assert!(!engine.is_running());
    assert!(!engine.is_cancelled());
    assert!(engine.drain_updates(10).is_empty());
}

#[test]
fn start_twice_grants_one_run() {
    let mut engine = TickerEngine::new();
    let first = engine.start_tracking(symbols(&["AAPL", "GOOG"]));
    let second = engine.start_tracking(symbols(&["MSFT"]));
    assert!(first.is_some());
    assert!(second.is_none());
    assert!(engine.is_running());
    assert_eq!(first.unwrap().len(), 2);
}

#[test]
fn start_with_no_symbols_is_no_op() {
    let mut engine = TickerEngine::new();
    assert!(engine.start_tracking(Vec::new()).is_none());
    assert!(!engine.is_running());
    assert!(engine.drain_updates(10).is_empty());
}

#[test]
fn restart_after_finish() {
    let mut engine = TickerEngine::new();
    assert!(engine.start_tracking(symbols(&["AAPL"])).is_some());
    engine.cancel();
    assert!(engine.start_tracking(symbols(&["AAPL"])).is_none());
    engine.finish_run();
    assert!(!engine.is_running());
    assert!(engine.start_tracking(symbols(&["AAPL"])).is_some());
    assert!(!engine.is_cancelled());
}

#[test]
fn drain_zero_returns_nothing() {
    let mut engine = TickerEngine::new();
    let mut ctx = engine.start_tracking(symbols(&["AAPL"])).unwrap();
    let listener = Recorder::new();
    engine.run_step(&mut ctx, &listener);
    assert!(engine.drain_updates(0).is_empty());
    assert_eq!(engine.drain_updates(5).len(), 1);
}

#[test]
fn step_moves_each_price_by_less_than_one_unit() {
    let mut engine = TickerEngine::new();
    let mut ctx = engine.start_tracking(symbols(&["AAPL", "GOOG", "MSFT"])).unwrap();
    let before: Vec<u64> = (0..ctx.len()).map(|i| ctx.price(i)).collect();
    let listener = Recorder::new();
    engine.run_step(&mut ctx, &listener);
    let seen = listener.taken();
    assert_eq!(seen.len(), 3);
    for i in 0..ctx.len() {
        let after = ctx.price(i);
        let moved = after as i128 - before[i] as i128;
        assert!(moved >= -1_000_000 && moved < 1_000_000);
        assert_eq!(seen[i].symbol, ctx.symbol(i).as_str());
        assert_eq!(seen[i].price, after);
    }
}

#[test]
fn tracking_two_symbols_records_and_queues_in_order() {
    let mut engine = TickerEngine::new();
    let mut ctx = engine.start_tracking(symbols(&["AAPL", "GOOG"])).unwrap();
    let listener = Recorder::new();
    let mut steps = 0;
    while !engine.is_cancelled() {
        engine.run_step(&mut ctx, &listener);
        steps += 1;
        if steps == 3 {
            engine.cancel();
        }
    }
    engine.finish_run();
    assert!(!engine.is_running());

    let recorded = listener.taken();
    assert_eq!(recorded.len(), 6);
    let mut per_symbol: HashMap<String, Vec<&PriceUpdate>> = HashMap::new();
    for u in &recorded {
        assert!(u.price > 0);
        assert!(u.price >= PRICE_FLOOR);
        per_symbol.entry(u.symbol.clone()).or_default().push(u);
    }
    assert_eq!(per_symbol.len(), 2);
    for name in ["AAPL", "GOOG"] {
        let list = &per_symbol[name];
        assert!(list.len() >= 3);
        for pair in list.windows(2) {
            assert!(pair[0].timestamp_ms <= pair[1].timestamp_ms);
        }
    }

    let mut drained = engine.drain_updates(4);
    drained.extend(engine.drain_updates(100));
    assert_eq!(drained.len(), recorded.len());
    for (a, b) in drained.iter().zip(recorded.iter()) {
        assert_eq!(a.symbol, b.symbol);
        assert_eq!(a.price, b.price);
        assert_eq!(a.timestamp_ms, b.timestamp_ms);
    }
    assert!(engine.drain_updates(100).is_empty());
}

fn requires_send_and_sync<T: Send + Sync>() {}

fn requires_send<T: Send>() {}

#[test]
fn engine_can_be_shared_with_a_producer_thread() {
    requires_send_and_sync::<TickerEngine>();
    requires_send_and_sync::<std::sync::Mutex<TickerEngine>>();
    requires_send::<ticker_core::SimulationContext>();
}

#[test]
fn run_step_returns_and_queues_what_listener_saw() {
    let mut engine = TickerEngine::new();
    let mut ctx = engine.start_tracking(symbols(&["AAPL", "GOOG", "AAPL"])).unwrap();
    let listener = Recorder::new();
    let step = engine.run_step(&mut ctx, &listener);
    assert_eq!(step.len(), 2);
    assert_eq!(step[0].symbol, "AAPL");
    assert_eq!(step[1].symbol, "GOOG");
    let seen = listener.taken();
    let queued = engine.drain_updates(10);
    assert_eq!(seen.len(), 2);
    assert_eq!(queued.len(), 2);
    for i in 0..2 {
        assert_eq!(seen[i].symbol, step[i].symbol);
        assert_eq!(seen[i].price, step[i].price);
        assert_eq!(queued[i].price, step[i].price);
        assert_eq!(queued[i].timestamp_ms, step[i].timestamp_ms);
        assert_eq!(ctx.price(i), step[i].price);
    }
}

#[test]
fn cancel_is_idempotent_and_keeps_queue() {
    let mut engine = TickerEngine::new();
    let mut ctx = engine.start_tracking(symbols(&["AAPL"])).unwrap();
    let listener = Recorder::new();
    engine.run_step(&mut ctx, &listener);
    engine.cancel();
    engine.cancel();
    assert!(engine.is_cancelled());
    assert!(engine.is_running());
    assert_eq!(engine.drain_updates(10).len(), 1);
}

#[test]
fn cancel_on_idle_engine_does_not_block_next_run() {
    let mut engine = TickerEngine::new();
    engine.cancel();
    assert!(!engine.is_running());
    assert!(engine.start_tracking(symbols(&["AAPL"])).is_some());
    assert!(!engine.is_cancelled());
}

#[test]
fn publish_appends_in_order() {
    let mut engine = TickerEngine::new();
    let first = vec![
        PriceUpdate { symbol: "AAPL".to_string(), price: 20_000, timestamp_ms: 1 },
        PriceUpdate { symbol: "GOOG".to_string(), price: 30_000, timestamp_ms: 2 },
    ];
    let second = vec![PriceUpdate { symbol: "MSFT".to_string(), price: 40_000, timestamp_ms: 3 }];
    engine.publish(&first);
    engine.publish(&second);
    let all = engine.drain_updates(10);
    let prices: Vec<u64> = all.iter().map(|u| u.price).collect();
    assert_eq!(prices, vec![20_000, 30_000, 40_000]);
}
