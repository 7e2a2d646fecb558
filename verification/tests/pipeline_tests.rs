use event_bench::event::Event;
use event_bench::pipeline::{aggregate, make_batch, run_worker, Aggregator, Worker};

#[test]
fn worker_counts_live_events() {
    let mut w = Worker::new(3);
    w.on_event(&Event::Int(16));
    w.on_event(&Event::Int(-1));
    w.on_event(&Event::Str(String::from("exit")));
    assert!(w.done());
    assert_eq!(w.report(), 1);
}

#[test]
fn worker_quota_reached() {
    let mut w = Worker::new(2);
    assert!(!w.done());
    w.on_event(&Event::Int(0));
    assert!(!w.done());
    w.on_event(&Event::Int(0));
    assert!(w.done());
    assert_eq!(w.report(), 2);
}

#[test]
fn worker_zero_quota() {
    let w = Worker::new(0);
    assert!(w.done());
    assert_eq!(w.report(), 0);
}

#[test]
fn run_worker_full_batch() {
    let event = Event::new(0, 16);
    let batch = make_batch(&event, 50);
    assert_eq!(run_worker(&batch, 50), 50);
}

#[test]
fn run_worker_short_batch() {
    // The queue-closed-early path: fewer deliveries than the quota.
    let event = Event::new(0, 7);
    let batch = make_batch(&event, 3);
    assert_eq!(run_worker(&batch, 10), 3);
}

#[test]
fn run_worker_sentinels_not_counted() {
    let batch = vec![
        Event::Int(16),
        Event::Int(-1),
        Event::Str(String::from("exit")),
        Event::StaticStr("exit"),
        Event::Frac(-100),
        Event::Frac(-99),
    ];
    assert_eq!(run_worker(&batch, 6), 2);
}

#[test]
fn make_batch_clones() {
    let event = Event::new(1, 4);
    let batch = make_batch(&event, 8);
    assert_eq!(batch.len(), 8);
    for e in &batch {
        assert!(*e == event);
    }
}

#[test]
fn make_batch_empty() {
    let event = Event::new(0, 1);
    let batch = make_batch(&event, 0);
    assert_eq!(batch.len(), 0);
}

#[test]
fn aggregator_sums_counts() {
    let mut a = Aggregator::new(3);
    assert!(!a.done());
    a.on_count(10);
    a.on_count(0);
    assert!(!a.done());
    a.on_count(5);
    assert!(a.done());
    assert_eq!(a.total(), 15);
}

#[test]
fn aggregate_uniform_counts() {
    // W workers each reporting E sum to W x E.
    let counts = vec![100usize; 10];
    assert_eq!(aggregate(&counts), 1000);
}

#[test]
fn aggregate_mixed_counts() {
    let counts = vec![3usize, 0, 7, 5];
    assert_eq!(aggregate(&counts), 15);
}

#[test]
fn end_to_end_scenario() {
    // W = 4 workers, E = 50 events each, event-type 0 with seed 16:
    // every worker receives 50 Integer(16) events, none terminal, each
    // reports 50, and the harness sums to 200 = total configured events.
    let workers: usize = 4;
    let events_per_worker: usize = 50;
    let event = Event::new(0, 16);
    assert!(!event.is_exit());

    let mut reports: Vec<usize> = Vec::new();
    for _ in 0..workers {
        let batch = make_batch(&event, events_per_worker);
        for e in &batch {
            assert!(*e == Event::Int(16));
        }
        let n = run_worker(&batch, events_per_worker);
        assert_eq!(n, 50);
        reports.push(n);
    }
    assert_eq!(reports.len(), workers);
    assert_eq!(aggregate(&reports), 200);
    assert_eq!(
        event_bench::metrics::total_events(workers, events_per_worker),
        200
    );
}
