use panic_audit::types::{
    count_severity, severity_rank_of, sort_by_severity, PanicClass, Severity, Vulnerability,
};

fn finding(sev: Severity, tag: &str) -> Vulnerability {
    Vulnerability::new(
        String::from("src/lib.rs"),
        String::from("1"),
        sev,
        PanicClass::AssumptionPanic,
        String::from(tag),
        String::from("x.unwrap()"),
    )
}

#[test]
fn severity_rank_orders_critical_first() {
    assert_eq!(severity_rank_of(Severity::Critical), 0);
    assert_eq!(severity_rank_of(Severity::High), 1);
    assert_eq!(severity_rank_of(Severity::Medium), 2);
    assert_eq!(severity_rank_of(Severity::Low), 3);
}

#[test]
fn sorting_places_more_severe_before_less_severe() {
    let mut findings = vec![
        finding(Severity::Low, "a"),
        finding(Severity::Critical, "b"),
        finding(Severity::Medium, "c"),
        finding(Severity::High, "d"),
        finding(Severity::Critical, "e"),
        finding(Severity::Low, "f"),
    ];
    sort_by_severity(&mut findings);
    let severities: Vec<Severity> = findings.iter().map(|v| v.severity).collect();
    assert_eq!(
        severities,
        vec![
            Severity::Critical,
            Severity::Critical,
            Severity::High,
            Severity::Medium,
            Severity::Low,
            Severity::Low,
        ]
    );
    // Every more-severe finding stands before every less-severe one.
    for i in 0..findings.len() {
        for j in 0..findings.len() {
            if severity_rank_of(findings[i].severity) < severity_rank_of(findings[j].severity) {
                assert!(i < j);
            }
        }
    }
}

#[test]
fn sorting_is_stable_within_each_severity() {
    let mut findings = vec![
        finding(Severity::Low, "first_low"),
        finding(Severity::Critical, "first_critical"),
        finding(Severity::Low, "second_low"),
        finding(Severity::Critical, "second_critical"),
        finding(Severity::High, "only_high"),
    ];
    sort_by_severity(&mut findings);
    let tags: Vec<&str> = findings.iter().map(|v| v.pattern.as_str()).collect();
    assert_eq!(
        tags,
        vec!["first_critical", "second_critical", "only_high", "first_low", "second_low"]
    );
}

#[test]
fn sorting_keeps_every_finding() {
    let mut findings = vec![
        finding(Severity::Medium, "a"),
        finding(Severity::Critical, "b"),
        finding(Severity::Medium, "c"),
    ];
    sort_by_severity(&mut findings);
    assert_eq!(findings.len(), 3);
    let tags: Vec<&str> = findings.iter().map(|v| v.pattern.as_str()).collect();
    assert!(tags.contains(&"a"));
    assert!(tags.contains(&"b"));
    assert!(tags.contains(&"c"));
}

#[test]
fn count_severity_counts_exactly() {
    let findings = vec![
        finding(Severity::Critical, "a"),
        finding(Severity::Low, "b"),
        finding(Severity::Critical, "c"),
    ];
    assert_eq!(count_severity(&findings, Severity::Critical), 2);
    assert_eq!(count_severity(&findings, Severity::Low), 1);
    assert_eq!(count_severity(&findings, Severity::High), 0);
}

#[test]
fn severity_enum_orders_critical_first() {
    assert!(Severity::Critical < Severity::High);
    assert!(Severity::High < Severity::Medium);
    assert!(Severity::Medium < Severity::Low);
}
