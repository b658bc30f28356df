use std::sync::Arc;

use prom_multi_proc::{batch_result, Batch, CollectorInner, Counter, Error, Gauge, Histogram, Metric, Summary};

fn make_counter(name: &str, label_keys: Vec<&str>) -> Counter {
    Counter(Arc::new(CollectorInner::new(name, label_keys.into_iter().map(String::from).collect())))
}

fn make_gauge(name: &str, label_keys: Vec<&str>) -> Gauge {
    Gauge(Arc::new(CollectorInner::new(name, label_keys.into_iter().map(String::from).collect())))
}

#[test]
fn test_batch_accumulates_metrics() {
    let counter = make_counter("my_counter", vec![]);
    let gauge = make_gauge("my_gauge", vec![]);

    let mut batch = Batch::new();
    batch.counter(&counter).inc(vec![]).unwrap();
    batch.gauge(&gauge).set(42.0f64.to_bits(), vec![]).unwrap();

    assert_eq!(batch.metrics.len(), 2);
    assert_eq!(batch.metrics[0].name, "my_counter");
    assert_eq!(batch.metrics[0].method, "inc");
    assert_eq!(batch.metrics[1].name, "my_gauge");
    assert_eq!(batch.metrics[1].method, "set");
    assert_eq!(f64::from_bits(batch.metrics[1].value_bits), 42.0);
}

#[test]
fn test_batch_label_mismatch_returns_error() {
    let counter = make_counter("my_counter", vec!["env"]);
    let mut batch = Batch::new();
    let result = batch.counter(&counter).inc(vec![]); // missing label
    assert!(result.is_err());
    // Batch itself is empty because we got an error before pushing.
    assert!(batch.metrics.is_empty());
}

#[test]
fn batch_keeps_order_and_skips_refused_calls() {
    let c = make_counter("c", vec!["k"]);
    let g = make_gauge("g", vec![]);
    let h = Histogram(Arc::new(CollectorInner::new("h", vec![])));
    let s = Summary(Arc::new(CollectorInner::new("s", vec![])));
    let mut batch = Batch::new();
    batch.counter(&c).add(3.0f64.to_bits(), vec!["v".into()]).unwrap();
    assert!(matches!(batch.gauge(&g).inc(vec!["extra".into()]), Err(Error::LabelCountMismatch { expected: 0, got: 1 })));
    batch.gauge(&g).dec(vec![]).unwrap();
    batch.gauge(&g).add(1.0f64.to_bits(), vec![]).unwrap();
    batch.gauge(&g).sub(1.0f64.to_bits(), vec![]).unwrap();
    batch.gauge(&g).set_to_current_time(9.0f64.to_bits(), vec![]).unwrap();
    batch.histogram(&h).observe(0.1f64.to_bits(), vec![]).unwrap();
    batch.summary(&s).observe(0.2f64.to_bits(), vec![]).unwrap();
    batch.push(Metric::new("raw", "set", 0, vec![]));
    let methods: Vec<&str> = batch.metrics.iter().map(|m| m.method.as_str()).collect();
    assert_eq!(methods, vec!["add", "dec", "add", "sub", "set_to_current_time", "observe", "observe", "set"]);
    assert_eq!(batch.metrics[0].label_values, vec!["v".to_string()]);
}

#[test]
fn batch_result_keeps_metrics_up_to_failure() {
    let c = make_counter("c", vec!["k"]);
    let (metrics, result) = batch_result(|b| {
        b.counter(&c).inc(vec!["one".into()])?;
        b.counter(&c).inc(vec![])?;
        b.counter(&c).inc(vec!["three".into()])
    });
    assert_eq!(metrics.len(), 1);
    assert!(matches!(result, Err(Error::LabelCountMismatch { expected: 1, got: 0 })));
}
