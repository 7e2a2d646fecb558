use event_bench::metrics::{etype_label, throughput_milli_per_sec, total_events};

#[test]
fn total_events_product() {
    assert_eq!(total_events(10, 100), 1000);
    assert_eq!(total_events(1, 1), 1);
    assert_eq!(total_events(7, 0), 0);
}

#[test]
fn throughput_exact() {
    // elapsed = 2.0 s, W = 10, E = 100: total = 1000, throughput = 500.0/s.
    let total = total_events(10, 100);
    let milli = throughput_milli_per_sec(total as u64, 2_000_000_000);
    assert_eq!(milli, 500_000);
    assert_eq!(milli as f64 / 1000.0, 500.0);
}

#[test]
fn throughput_sub_second() {
    // 250 events in half a second: 500.0 events per second.
    assert_eq!(throughput_milli_per_sec(250, 500_000_000), 500_000);
}

#[test]
fn throughput_millisecond_resolution() {
    // 1 event in 3 ms: 333.333 events per second.
    assert_eq!(throughput_milli_per_sec(1, 3_000_000), 333_333);
}

#[test]
fn etype_labels() {
    assert_eq!(etype_label(0), "int");
    assert_eq!(etype_label(1), "str");
    assert_eq!(etype_label(2), "str_ptr");
    assert_eq!(etype_label(3), "str_clone");
    assert_eq!(etype_label(4), "unknown");
    assert_eq!(etype_label(-1), "unknown");
}
