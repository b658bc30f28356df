use prom_multi_proc::{apply_prefix, stripped_key, Config, Error, MetricHandle, MetricSpec, Timeout};

fn spec(name: &str, metric_type: &str, help: &str, labels: &[&str]) -> MetricSpec {
    MetricSpec {
        name: name.to_string(),
        metric_type: metric_type.to_string(),
        help: help.to_string(),
        labels: labels.iter().map(|l| l.to_string()).collect(),
    }
}

fn basic_specs() -> Vec<MetricSpec> {
    vec![
        spec("myapp_requests", "counter", "Total requests", &["method"]),
        spec("myapp_memory", "gauge", "Memory usage", &[]),
        spec("myapp_latency", "histogram", "Latency", &[]),
        spec("myapp_response_size", "summary", "Response size", &[]),
    ]
}

fn build(cfg: Config, specs: Vec<MetricSpec>) -> prom_multi_proc::Result<prom_multi_proc::Client> {
    prom_multi_proc::Client::from_config(cfg, specs)
}

#[test]
fn test_client_builds_metrics() {
    let client = build(Config::new("/nonexistent.sock", "specs.json"), basic_specs()).unwrap();
    // Without a prefix, keys are the full metric names from the spec file.
    assert!(client.counter("myapp_requests").is_some());
    assert!(client.gauge("myapp_memory").is_some());
    assert!(client.histogram("myapp_latency").is_some());
    assert!(client.summary("myapp_response_size").is_some());
}

#[test]
fn test_client_with_prefix() {
    let cfg = Config::new("/nonexistent.sock", "specs.json").prefix("myapp").unwrap();
    let client = build(cfg, basic_specs()).unwrap();
    // Keys are stripped names.
    assert!(client.counter("requests").is_some());
    assert!(client.gauge("memory").is_some());
    assert_eq!(client.prefix(), "myapp_");
}

#[test]
fn client_test_prefix_applied_to_unprefixed_spec_name() {
    let cfg = Config::new("/nonexistent.sock", "specs.json").prefix("myapp").unwrap();
    let client = build(cfg, vec![spec("requests", "counter", "Requests", &[])]).unwrap();
    // Key is stripped name; wire name has the prefix.
    assert!(client.counter("requests").is_some());
    assert_eq!(client.counter("requests").unwrap().name(), "myapp_requests");
}

#[test]
fn test_client_metric_not_found() {
    let client = build(Config::new("/nonexistent.sock", "specs.json"), basic_specs()).unwrap();
    assert!(client.counter("nonexistent").is_none());
}

#[test]
fn test_unknown_metric_type_fails() {
    let result = build(
        Config::new("/nonexistent.sock", "specs.json"),
        vec![spec("my_metric", "bogus", "oops", &[])],
    );
    assert!(matches!(result, Err(Error::UnknownType(_))));
}

#[test]
fn test_missing_help_fails() {
    let result = build(
        Config::new("/nonexistent.sock", "specs.json"),
        vec![spec("my_metric", "counter", "  ", &[])],
    );
    assert!(matches!(result, Err(Error::MissingHelp(_))));
}

#[test]
fn test_invalid_batch_size_fails() {
    let result = Config::new("/sock", "/specs").batch_size(0);
    assert!(matches!(result, Err(Error::InvalidBatchSize(0))));
}

#[test]
fn test_duplicate_metric_fails() {
    let result = build(
        Config::new("/nonexistent.sock", "specs.json"),
        vec![
            spec("my_counter", "counter", "A counter", &[]),
            spec("my_counter", "counter", "Another counter", &[]),
        ],
    );
    assert!(matches!(result, Err(Error::DuplicateMetric(_))));
}

#[test]
fn client_test_sync_mode_rejects_batch_size() {
    let cfg = Config::new("/nonexistent.sock", "specs.json").batch_size(10).unwrap().sync(true);
    let result = build(cfg, vec![spec("my_counter", "counter", "A counter", &[])]);
    assert!(matches!(result, Err(Error::SyncModeConflict)));
}

#[test]
fn test_sync_mode_rejects_batch_timeout() {
    let cfg = Config::new("/nonexistent.sock", "specs.json")
        .batch_timeout(Timeout::from_secs(10))
        .unwrap()
        .sync(true);
    let result = build(cfg, vec![spec("my_counter", "counter", "A counter", &[])]);
    assert!(matches!(result, Err(Error::SyncModeConflict)));
}

#[test]
fn test_sync_mode_builds_successfully() {
    let cfg = Config::new("/nonexistent.sock", "specs.json").sync(true);
    let client = build(cfg, vec![spec("my_counter", "counter", "A counter", &[])]).unwrap();
    assert!(client.is_sync());
    assert!(client.counter("my_counter").is_some());
}

#[test]
fn zero_batch_timeout_is_refused() {
    let result = Config::new("/sock", "/specs").batch_timeout(Timeout { secs: 0, nanos: 0 });
    assert!(matches!(result, Err(Error::InvalidBatchTimeout(0))));
    assert!(Config::new("/sock", "/specs").batch_timeout(Timeout { secs: 0, nanos: 5 }).is_ok());
}

#[test]
fn invalid_prefix_is_refused_with_separator() {
    match Config::new("/sock", "/specs").prefix("MyApp") {
        Err(Error::InvalidPrefix(p)) => assert_eq!(p, "MyApp_"),
        _ => panic!("expected an invalid prefix"),
    }
    assert!(matches!(Config::new("/sock", "/specs").prefix("_"), Err(Error::InvalidPrefix(_))));
}

#[test]
fn config_keeps_paths() {
    let cfg = Config::new("/run/agg.sock", "/etc/metrics.json");
    assert_eq!(cfg.socket(), "/run/agg.sock");
    assert_eq!(cfg.metrics(), "/etc/metrics.json");
}

#[test]
fn writer_follows_configuration() {
    let w = Config::new("/s", "/m").writer().unwrap();
    assert!(!w.is_sync());
    assert_eq!(w.batch_timeout(), Some(Timeout { secs: 3, nanos: 0 }));
    let w = Config::new("/s", "/m").batch_timeout(Timeout::from_secs(7)).unwrap().writer().unwrap();
    assert_eq!(w.batch_timeout(), Some(Timeout { secs: 7, nanos: 0 }));
    let w = Config::new("/s", "/m").sync(true).writer().unwrap();
    assert!(w.is_sync());
    assert_eq!(w.batch_timeout(), None);
    let conflict = Config::new("/s", "/m").batch_size(2).unwrap().sync(true).writer();
    assert!(matches!(conflict, Err(Error::SyncModeConflict)));
}

#[test]
fn invalid_names_and_labels_are_refused() {
    let r = build(Config::new("/s", "/m"), vec![spec("Bad", "counter", "help", &[])]);
    assert!(matches!(r, Err(Error::InvalidName(ref n)) if n == "Bad"));
    let r = build(Config::new("/s", "/m"), vec![spec("good", "counter", "help", &["ok", "Nope", "9x"])]);
    assert!(matches!(r, Err(Error::InvalidLabel(ref l)) if l == "Nope"));
}

#[test]
fn first_problem_in_definition_order_is_reported() {
    let r = build(
        Config::new("/s", "/m"),
        vec![
            spec("fine", "counter", "help", &[]),
            spec("broken", "weird", "help", &[]),
            spec("Bad", "counter", "help", &[]),
        ],
    );
    assert!(matches!(r, Err(Error::UnknownType(ref t)) if t == "weird"));
}

#[test]
fn help_of_only_white_space_is_missing() {
    let r = build(Config::new("/s", "/m"), vec![spec("m", "counter", "\t\n\u{a0}", &[])]);
    assert!(matches!(r, Err(Error::MissingHelp(ref n)) if n == "m"));
    assert!(build(Config::new("/s", "/m"), vec![spec("m", "counter", " x ", &[])]).is_ok());
}

#[test]
fn duplicate_short_names_after_stripping_are_refused() {
    let cfg = Config::new("/s", "/m").prefix("app").unwrap();
    let r = build(
        cfg,
        vec![spec("app_requests", "counter", "a", &[]), spec("requests", "gauge", "b", &[])],
    );
    assert!(matches!(r, Err(Error::DuplicateMetric(ref k)) if k == "requests"));
}

#[test]
fn sent_name_is_prefix_followed_by_short_name() {
    let cfg = Config::new("/s", "/m").prefix("app").unwrap();
    let client = build(
        cfg,
        vec![
            spec("app_requests", "counter", "a", &["method"]),
            spec("memory", "gauge", "b", &[]),
            spec("app_app_depth", "histogram", "c", &[]),
        ],
    )
    .unwrap();
    for key in client.metric_names() {
        let handle = client.metric(key).unwrap();
        let name = match handle {
            MetricHandle::Counter(c) => c.name().to_string(),
            MetricHandle::Gauge(g) => g.name().to_string(),
            MetricHandle::Histogram(h) => h.name().to_string(),
            MetricHandle::Summary(s) => s.name().to_string(),
        };
        assert_eq!(name, format!("app_{}", key));
    }
    assert_eq!(client.metric_names(), vec!["requests", "memory", "app_depth"]);
    assert!(client.has_metric("memory"));
    assert!(!client.has_metric("app_memory"));
    assert_eq!(client.counter("requests").unwrap().label_keys(), &["method".to_string()]);
}

#[test]
fn blank_help_follows_char_is_whitespace() {
    let mut chars: Vec<char> = (0u32..0x3100).filter_map(char::from_u32).collect();
    chars.extend(['\u{feff}', '\u{180e}', '\u{200b}', '\u{10ffff}']);
    for c in chars {
        let r = build(Config::new("/s", "/m"), vec![spec("m", "counter", &c.to_string(), &[])]);
        assert_eq!(matches!(r, Err(Error::MissingHelp(_))), c.is_whitespace(), "char {:?}", c);
    }
}

#[test]
fn short_key_does_not_depend_on_carried_prefix() {
    for (name, prefix) in [("requests", "app_"), ("app_requests", "app_"), ("x", ""), ("apple", "app"), ("app_app_x", "app_")] {
        let sent = apply_prefix(name, prefix);
        assert_eq!(stripped_key(&sent, prefix), stripped_key(name, prefix));
        if prefix.is_empty() || !name.starts_with(prefix) {
            assert_eq!(stripped_key(&sent, prefix), name);
        }
    }
}

#[test]
fn multi_hands_over_a_non_empty_batch_whole() {
    let client = build(
        Config::new("/s", "/m"),
        vec![spec("c", "counter", "a", &[]), spec("g", "gauge", "b", &[])],
    )
    .unwrap();
    let out = client.multi(|batch| {
        if let Some(c) = client.counter("c") {
            let _ = batch.counter(c).inc(vec![]);
        }
        if let Some(g) = client.gauge("g") {
            let _ = batch.gauge(g).set(99.0f64.to_bits(), vec![]);
        }
    });
    let names: Vec<String> = out.unwrap().into_iter().map(|m| m.name).collect();
    assert_eq!(names, vec!["c", "g"]);
    assert!(client.multi(|_| {}).is_none());
}

#[test]
fn test_multi_batch() {
    let client = build(
        Config::new("/nonexistent.sock", "specs.json"),
        vec![
            spec("batch_counter", "counter", "A counter", &[]),
            spec("batch_gauge", "gauge", "A gauge", &[]),
        ],
    )
    .unwrap();
    // multi should not panic even on a dead socket.
    let out = client.multi(|batch| {
        if let Some(c) = client.counter("batch_counter") {
            let _ = batch.counter(c).inc(vec![]);
        }
        if let Some(g) = client.gauge("batch_gauge") {
            let _ = batch.gauge(g).set(10.0f64.to_bits(), vec![]);
        }
    });
    assert_eq!(out.map(|m| m.len()), Some(2));
}
