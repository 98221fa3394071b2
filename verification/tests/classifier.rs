use panic_audit::rules::{all_rules, classify_panic, is_cloudflare_class, is_false_positive};
use panic_audit::types::{PanicClass, Severity};

#[test]
fn catalog_has_nine_rules_in_order() {
    let rules = all_rules();
    assert_eq!(rules.len(), 9);
    assert_eq!(rules[0].id, "PA001");
    assert_eq!(rules[0].kind, "unwrap");
    assert_eq!(rules[0].severity, "HIGH");
    assert_eq!(rules[0].message, "Use of unwrap() may panic");
    assert_eq!(rules[3].severity, "MEDIUM");
    assert_eq!(rules[3].message, "todo! macro found");
    assert_eq!(rules[7].id, "PA008");
    assert_eq!(rules[7].kind, "mutex_unwrap");
    assert_eq!(rules[7].severity, "CRITICAL");
    assert_eq!(rules[7].message, "Mutex/RwLock unwrap (panic amplification)");
    assert_eq!(rules[8].id, "PA009");
    assert_eq!(rules[8].severity, "CRITICAL");
    assert_eq!(rules[8].message, "process::exit() found");
}

#[test]
fn config_read_is_cloudflare_class() {
    let (sev, class, label) = classify_panic("std::fs::read_to_string(\"config.toml\").unwrap()");
    assert_eq!(sev, Severity::Critical);
    assert_eq!(class, PanicClass::CloudflareClass);
    assert_eq!(label, "Config/Feature File Loading (Cloudflare Pattern)");
}

#[test]
fn plain_file_read_is_file_io_not_cloudflare() {
    let (sev, class, label) = classify_panic("std::fs::read_to_string(\"notes.txt\").unwrap()");
    assert_eq!(sev, Severity::Critical);
    assert_eq!(class, PanicClass::AssumptionPanic);
    assert_eq!(label, "File I/O Operation");
}

#[test]
fn file_open_with_expect_is_file_io() {
    let (sev, class, label) = classify_panic("File::open(path).expect(\"no file\")");
    assert_eq!(sev, Severity::Critical);
    assert_eq!(class, PanicClass::AssumptionPanic);
    assert_eq!(label, "File I/O Operation");
}

#[test]
fn tcp_connect_is_network_socket() {
    let (sev, class, label) = classify_panic("TcpStream::connect(\"127.0.0.1:80\").unwrap()");
    assert_eq!(sev, Severity::Critical);
    assert_eq!(class, PanicClass::AssumptionPanic);
    assert_eq!(label, "Network Socket Operation");
}

#[test]
fn reqwest_send_is_http_request() {
    let (sev, class, label) = classify_panic("reqwest::blocking::get(url).send().unwrap()");
    assert_eq!(sev, Severity::Critical);
    assert_eq!(class, PanicClass::AssumptionPanic);
    assert_eq!(label, "HTTP Request");
}

#[test]
fn with_capacity_is_allocation_panic() {
    let (sev, class, label) = classify_panic("Vec::with_capacity(n).try_into().unwrap()");
    assert_eq!(sev, Severity::High);
    assert_eq!(class, PanicClass::AllocationPanic);
    assert_eq!(label, "Allocation with Potential Untrusted Size");
}

#[test]
fn parse_unwrap_is_parsing_operation() {
    let (sev, class, label) = classify_panic("value.parse::<i32>().unwrap()");
    assert_eq!(sev, Severity::High);
    assert_eq!(class, PanicClass::AssumptionPanic);
    assert_eq!(label, "Parsing Operation");
}

#[test]
fn serde_json_from_str_is_parsing_operation() {
    let (sev, class, label) = classify_panic("serde_json::from_str(&body).unwrap()");
    assert_eq!(sev, Severity::High);
    assert_eq!(class, PanicClass::AssumptionPanic);
    assert_eq!(label, "Parsing Operation");
}

#[test]
fn diesel_query_is_database_operation() {
    let (sev, class, label) = classify_panic("diesel::sql_query(q).execute(conn).unwrap()");
    assert_eq!(sev, Severity::High);
    assert_eq!(class, PanicClass::AssumptionPanic);
    assert_eq!(label, "Database Operation");
}

#[test]
fn env_var_is_environment_variable() {
    let (sev, class, label) = classify_panic("std::env::var(\"HOME\").unwrap()");
    assert_eq!(sev, Severity::Medium);
    assert_eq!(class, PanicClass::AssumptionPanic);
    assert_eq!(label, "Environment Variable");
}

#[test]
fn bare_unwrap_falls_to_general_bucket() {
    let (sev, class, label) = classify_panic("maybe_thing.unwrap()");
    assert_eq!(sev, Severity::Low);
    assert_eq!(class, PanicClass::AssumptionPanic);
    assert_eq!(label, "General Unwrap");
}

#[test]
fn classification_is_case_insensitive() {
    let (sev, class, _) = classify_panic("VALUE.PARSE::<I32>().UNWRAP()");
    assert_eq!(sev, Severity::High);
    assert_eq!(class, PanicClass::AssumptionPanic);
}

#[test]
fn cloudflare_needs_both_file_op_and_config_word() {
    assert!(is_cloudflare_class("fs::read(\"settings.yaml\")"));
    assert!(!is_cloudflare_class("fs::read(\"data.bin\")"));
    assert!(!is_cloudflare_class("load_config()"));
}

#[test]
fn arc_try_unwrap_is_false_positive() {
    assert!(is_false_positive("Arc::try_unwrap(x).unwrap()"));
    assert!(is_false_positive("Rc::try_unwrap(x).unwrap()"));
}

#[test]
fn inner_access_without_io_words_is_false_positive() {
    assert!(is_false_positive("self.inner.lock().unwrap()"));
    assert!(is_false_positive("thing.inner().unwrap()"));
    assert!(!is_false_positive("self.inner_file.read().unwrap()"));
    assert!(!is_false_positive("config.load().inner().unwrap()"));
}

#[test]
fn ordinary_unwrap_is_not_false_positive() {
    assert!(!is_false_positive("maybe_thing.unwrap()"));
}
