use prom_multi_proc::{apply_prefix, normalize_prefix, validate_label, validate_name, validate_prefix, Error};

#[test]
fn test_validate_name_valid() {
    assert!(validate_name("my_metric").is_ok());
    assert!(validate_name("abc").is_ok());
    assert!(validate_name("a1_b2").is_ok());
    assert!(validate_name("myapp_requests_total").is_ok());
}

#[test]
fn test_validate_name_invalid() {
    assert!(validate_name("").is_err());
    assert!(validate_name("1abc").is_err());
    assert!(validate_name("MyMetric").is_err());
    assert!(validate_name("my-metric").is_err());
    assert!(validate_name("my metric").is_err());
}

#[test]
fn test_normalize_prefix() {
    assert_eq!(normalize_prefix(""), "");
    assert_eq!(normalize_prefix("myapp"), "myapp_");
    assert_eq!(normalize_prefix("myapp_"), "myapp_");
}

#[test]
fn test_validate_prefix() {
    assert!(validate_prefix("").is_ok());
    assert!(validate_prefix("myapp").is_ok());
    assert!(validate_prefix("myapp_").is_ok());
    assert!(validate_prefix("_").is_err());
    assert!(validate_prefix("MyApp").is_err());
}

#[test]
fn test_apply_prefix() {
    assert_eq!(apply_prefix("requests", "myapp_"), "myapp_requests");
    assert_eq!(apply_prefix("myapp_requests", "myapp_"), "myapp_requests");
    assert_eq!(apply_prefix("requests", ""), "requests");
}

#[test]
fn name_errors_carry_the_name() {
    match validate_name("Bad") {
        Err(Error::InvalidName(n)) => assert_eq!(n, "Bad"),
        other => panic!("unexpected {:?}", other),
    }
    match validate_label("9lives") {
        Err(Error::InvalidLabel(n)) => assert_eq!(n, "9lives"),
        other => panic!("unexpected {:?}", other),
    }
    assert!(validate_label("method").is_ok());
}

#[test]
fn non_ascii_names_are_refused() {
    assert!(validate_name("caf\u{e9}").is_err());
    assert!(validate_name("\u{e9}t\u{e9}").is_err());
    assert!(validate_label("na\u{ef}ve").is_err());
}

#[test]
fn prefix_errors_carry_the_prefix() {
    match validate_prefix("__") {
        Err(Error::InvalidPrefix(p)) => assert_eq!(p, "__"),
        other => panic!("unexpected {:?}", other),
    }
    assert!(validate_prefix("app__").is_ok());
    assert!(validate_prefix("a-b_").is_err());
}

#[test]
fn normalize_prefix_is_idempotent() {
    for p in ["", "app", "app_", "a_b", "x__"] {
        let once = normalize_prefix(p);
        assert_eq!(normalize_prefix(&once), once);
    }
}

#[test]
fn apply_prefix_is_idempotent() {
    for (name, prefix) in [("requests", "app_"), ("app_requests", "app_"), ("x", ""), ("apple", "app")] {
        let once = apply_prefix(name, prefix);
        assert_eq!(apply_prefix(&once, prefix), once);
    }
}

#[test]
fn apply_prefix_with_multibyte_text() {
    assert_eq!(apply_prefix("\u{e9}t\u{e9}", "caf\u{e9}_"), "caf\u{e9}_\u{e9}t\u{e9}");
    assert_eq!(apply_prefix("caf\u{e9}_x", "caf\u{e9}_"), "caf\u{e9}_x");
}
