use std::sync::Arc;
use std::time::{SystemTime, UNIX_EPOCH};

use prom_multi_proc::{CollectorInner, Counter, Error, Gauge, Histogram, Metric, Summary, ONE};

fn inner(name: &str, label_keys: Vec<&str>) -> Arc<CollectorInner> {
    Arc::new(CollectorInner::new(name, label_keys.into_iter().map(String::from).collect()))
}

fn make_counter(label_keys: Vec<&str>) -> Counter {
    Counter(inner("my_counter", label_keys))
}

fn make_gauge(label_keys: Vec<&str>) -> Gauge {
    Gauge(inner("my_gauge", label_keys))
}

fn make_histogram(label_keys: Vec<&str>) -> Histogram {
    Histogram(inner("my_histogram", label_keys))
}

fn make_summary(label_keys: Vec<&str>) -> Summary {
    Summary(inner("my_summary", label_keys))
}

fn now_bits() -> u64 {
    SystemTime::now().duration_since(UNIX_EPOCH).unwrap_or_default().as_secs_f64().to_bits()
}

#[test]
fn test_inc_no_labels() {
    let c = make_counter(vec![]);
    assert!(c.inc(vec![]).is_ok());
}

#[test]
fn test_inc_with_labels() {
    let c = make_counter(vec!["method", "status"]);
    assert!(c.inc(vec!["GET".into(), "200".into()]).is_ok());
}

#[test]
fn test_label_mismatch_returns_error() {
    let c = make_counter(vec!["method"]);
    assert!(c.inc(vec![]).is_err());
    assert!(c.inc(vec!["a".into(), "b".into()]).is_err());
}

#[test]
fn test_add() {
    let c = make_counter(vec![]);
    assert!(c.add(5.0f64.to_bits(), vec![]).is_ok());
}

#[test]
fn test_all_methods_no_labels() {
    let g = make_gauge(vec![]);
    assert!(g.set(42.0f64.to_bits(), vec![]).is_ok());
    assert!(g.inc(vec![]).is_ok());
    assert!(g.dec(vec![]).is_ok());
    assert!(g.add(5.0f64.to_bits(), vec![]).is_ok());
    assert!(g.sub(3.0f64.to_bits(), vec![]).is_ok());
    assert!(g.set_to_current_time(now_bits(), vec![]).is_ok());
}

#[test]
fn gauge_test_label_mismatch() {
    let g = make_gauge(vec!["env"]);
    assert!(g.set(1.0f64.to_bits(), vec![]).is_err());
}

#[test]
fn histogram_test_observe_no_labels() {
    let h = make_histogram(vec![]);
    assert!(h.observe(0.5f64.to_bits(), vec![]).is_ok());
}

#[test]
fn histogram_test_observe_with_labels() {
    let h = make_histogram(vec!["path"]);
    assert!(h.observe(0.123f64.to_bits(), vec!["/api".into()]).is_ok());
}

#[test]
fn histogram_test_label_mismatch() {
    let h = make_histogram(vec!["path"]);
    assert!(h.observe(0.5f64.to_bits(), vec![]).is_err());
}

#[test]
fn summary_test_observe_no_labels() {
    let s = make_summary(vec![]);
    assert!(s.observe(0.5f64.to_bits(), vec![]).is_ok());
}

#[test]
fn summary_test_observe_with_labels() {
    let s = make_summary(vec!["env"]);
    assert!(s.observe(1.5f64.to_bits(), vec!["production".into()]).is_ok());
}

#[test]
fn summary_test_label_mismatch() {
    let s = make_summary(vec!["env"]);
    assert!(s.observe(0.5f64.to_bits(), vec![]).is_err());
}

#[test]
fn observations_carry_name_method_value_and_labels() {
    let c = make_counter(vec!["method", "status"]);
    let m = c.inc(vec!["GET".into(), "200".into()]).unwrap();
    assert_eq!(
        m,
        Metric::new("my_counter", "inc", 1.0f64.to_bits(), vec!["GET".into(), "200".into()])
    );
    assert_eq!(ONE, 1.0f64.to_bits());

    let g = make_gauge(vec![]);
    let methods: Vec<(String, f64)> = vec![
        g.set(10.0f64.to_bits(), vec![]).unwrap(),
        g.inc(vec![]).unwrap(),
        g.dec(vec![]).unwrap(),
        g.add(2.0f64.to_bits(), vec![]).unwrap(),
        g.sub(1.0f64.to_bits(), vec![]).unwrap(),
        g.set_to_current_time(123.0f64.to_bits(), vec![]).unwrap(),
    ]
    .into_iter()
    .map(|m| (m.method, f64::from_bits(m.value_bits)))
    .collect();
    assert_eq!(
        methods,
        vec![
            ("set".to_string(), 10.0),
            ("inc".to_string(), 1.0),
            ("dec".to_string(), 1.0),
            ("add".to_string(), 2.0),
            ("sub".to_string(), 1.0),
            ("set_to_current_time".to_string(), 123.0),
        ]
    );
    let h = make_histogram(vec![]).observe(0.25f64.to_bits(), vec![]).unwrap();
    assert_eq!((h.name.as_str(), h.method.as_str()), ("my_histogram", "observe"));
    let s = make_summary(vec![]).observe(4.0f64.to_bits(), vec![]).unwrap();
    assert_eq!((s.name.as_str(), s.method.as_str()), ("my_summary", "observe"));
}

#[test]
fn collector_accessors() {
    let c = make_counter(vec!["a", "b"]);
    assert_eq!(c.name(), "my_counter");
    assert_eq!(c.label_keys(), &["a".to_string(), "b".to_string()]);
    let m = c.0.build_metric("add", 7, vec!["x".into(), "y".into()]).unwrap();
    assert_eq!(m.value_bits, 7);
    assert!(matches!(
        c.0.build_metric("add", 7, vec![]),
        Err(Error::LabelCountMismatch { expected: 2, got: 0 })
    ));
}

#[test]
fn collector_write_goes_to_the_writer_once_or_not_at_all() {
    let mut writer = prom_multi_proc::Writer::new(2, prom_multi_proc::Timeout::from_secs(1));
    let c = inner("my_counter", vec!["k"]);
    let (r, out) = c.write(&mut writer, "inc", ONE, vec![]);
    assert!(matches!(r, Err(Error::LabelCountMismatch { expected: 1, got: 0 })));
    assert!(out.is_none());
    assert!(writer.flush().is_none());
    let (r, out) = c.write(&mut writer, "inc", ONE, vec!["a".into()]);
    assert!(r.is_ok() && out.is_none());
    let (r, out) = c.write(&mut writer, "add", 2.0f64.to_bits(), vec!["b".into()]);
    assert!(r.is_ok());
    let methods: Vec<String> = out.unwrap().into_iter().map(|m| m.method).collect();
    assert_eq!(methods, vec!["inc", "add"]);
}
