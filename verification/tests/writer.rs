use prom_multi_proc::{Metric, Timeout, Writer};

fn m(name: &str) -> Metric {
    Metric::new(name, "inc", 1.0f64.to_bits(), vec![])
}

fn names(batch: &Option<Vec<Metric>>) -> Vec<String> {
    batch.as_ref().map(|b| b.iter().map(|m| m.name.clone()).collect()).unwrap_or_default()
}

#[test]
fn test_missing_socket_does_not_panic() {
    let mut writer = Writer::new(1, Timeout::from_secs(5));
    let out = writer.write(Metric::new("counter", "inc", 1.0f64.to_bits(), vec![]));
    assert_eq!(names(&out), vec!["counter"]);
}

#[test]
fn test_sync_flush_and_shutdown_are_noops() {
    let mut writer = Writer::new_sync();
    assert!(writer.flush().is_none());
    assert!(writer.shutdown().is_none());
}

#[test]
fn test_sync_missing_socket_does_not_panic() {
    let mut writer = Writer::new_sync();
    let out = writer.write(Metric::new("counter", "inc", 1.0f64.to_bits(), vec![]));
    assert_eq!(names(&out), vec!["counter"]);
}

#[test]
fn batch_is_handed_over_when_full() {
    let mut writer = Writer::new(3, Timeout::from_secs(30));
    assert!(writer.write(m("a")).is_none());
    assert!(writer.write(m("b")).is_none());
    let out = writer.write(m("c"));
    assert_eq!(names(&out), vec!["a", "b", "c"]);
    assert!(writer.flush().is_none());
}

#[test]
fn write_many_is_handed_over_together() {
    let mut writer = Writer::new(10, Timeout::from_secs(30));
    assert!(writer.write_many(vec![m("a"), m("b")]).is_none());
    assert_eq!(names(&writer.flush()), vec!["a", "b"]);
    let mut sync = Writer::new_sync();
    assert_eq!(names(&sync.write_many(vec![m("x"), m("y")])), vec!["x", "y"]);
    assert!(sync.write_many(vec![]).is_none());
}

#[test]
fn overfull_write_hands_over_everything() {
    let mut writer = Writer::new(2, Timeout::from_secs(30));
    assert!(writer.write(m("a")).is_none());
    assert_eq!(names(&writer.write_many(vec![m("b"), m("c"), m("d")])), vec!["a", "b", "c", "d"]);
}

#[test]
fn shutdown_hands_over_the_rest_and_stops_the_timer() {
    let mut writer = Writer::new(100, Timeout::from_secs(30));
    assert!(writer.write(m("a")).is_none());
    let (out, stop) = writer.tick();
    assert_eq!(names(&out), vec!["a"]);
    assert!(!stop);
    assert!(writer.write(m("b")).is_none());
    assert_eq!(names(&writer.shutdown()), vec!["b"]);
    let (out, stop) = writer.tick();
    assert!(out.is_none());
    assert!(stop);
}

#[test]
fn everything_written_is_handed_over_once_in_order() {
    let mut writer = Writer::new(3, Timeout::from_secs(1));
    let mut sent: Vec<String> = Vec::new();
    let mut written: Vec<String> = Vec::new();
    for i in 0..10 {
        let name = format!("m{}", i);
        written.push(name.clone());
        sent.extend(names(&writer.write(m(&name))));
        if i == 4 {
            sent.extend(names(&writer.flush()));
        }
        if i == 7 {
            sent.extend(names(&writer.tick().0));
        }
    }
    sent.extend(names(&writer.shutdown()));
    assert_eq!(sent, written);
}

#[test]
fn zero_batch_size_hands_over_even_empty_batches() {
    let mut writer = Writer::new(0, Timeout::from_secs(1));
    assert_eq!(writer.write_many(vec![]), Some(vec![]));
    assert_eq!(writer.flush(), Some(vec![]));
}
