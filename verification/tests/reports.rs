use accessibility_audit_backend::api::reports::generate_comparison;
use accessibility_audit_backend::domain::models::{AuditSummary, PageAuditResult, Timestamp};

fn now() -> Timestamp {
    let t = chrono::Utc::now();
    Timestamp { secs: t.timestamp(), nanos: t.timestamp_subsec_nanos() }
}

fn result(summary: AuditSummary, duration: u64) -> PageAuditResult {
    PageAuditResult {
        url: "https://example.com".to_string(),
        timestamp: now(),
        issues: vec![],
        summary,
        page_title: Some("Test".to_string()),
        scan_duration_ms: duration,
    }
}

#[test]
fn test_generate_comparison_empty() {
    let _scans: Vec<PageAuditResult> = vec![];
    // An empty list is answered before any comparison is generated.
}

#[test]
fn test_generate_comparison_single_scan() {
    let scans = vec![PageAuditResult {
        url: "https://example.com".to_string(),
        timestamp: now(),
        issues: vec![],
        summary: AuditSummary {
            total_issues: 0,
            critical_count: 0,
            serious_count: 0,
            moderate_count: 0,
            minor_count: 0,
            wcag_level_a_pass: true,
            wcag_level_aa_pass: true,
            wcag_level_aaa_pass: true,
        },
        page_title: Some("Test".to_string()),
        scan_duration_ms: 1000,
    }];

    let comparison = generate_comparison(&scans);
    assert_eq!(comparison.total_scans, 1);
    assert!(comparison.previous_scan.is_none());
    assert_eq!(comparison.issue_trend.total_change, 0);
}

#[test]
fn test_generate_comparison_multiple_scans() {
    let scans = vec![
        PageAuditResult {
            url: "https://example.com".to_string(),
            timestamp: now(),
            issues: vec![],
            summary: AuditSummary {
                total_issues: 5,
                critical_count: 1,
                serious_count: 2,
                moderate_count: 1,
                minor_count: 1,
                wcag_level_a_pass: false,
                wcag_level_aa_pass: false,
                wcag_level_aaa_pass: false,
            },
            page_title: Some("Test".to_string()),
            scan_duration_ms: 1000,
        },
        PageAuditResult {
            url: "https://example.com".to_string(),
            timestamp: now(),
            issues: vec![],
            summary: AuditSummary {
                total_issues: 3,
                critical_count: 0,
                serious_count: 1,
                moderate_count: 1,
                minor_count: 1,
                wcag_level_a_pass: false,
                wcag_level_aa_pass: false,
                wcag_level_aaa_pass: false,
            },
            page_title: Some("Test".to_string()),
            scan_duration_ms: 900,
        },
    ];

    let comparison = generate_comparison(&scans);
    assert_eq!(comparison.total_scans, 2);
    assert!(comparison.previous_scan.is_some());
    assert_eq!(comparison.issue_trend.total_change, -2);
    assert_eq!(comparison.issue_trend.critical_change, -1);
}

#[test]
fn comparison_uses_the_last_two_scans_and_records_history() {
    let s = |total: usize, critical: usize, serious: usize, a: bool| AuditSummary {
        total_issues: total,
        critical_count: critical,
        serious_count: serious,
        moderate_count: 0,
        minor_count: total - critical - serious,
        wcag_level_a_pass: a,
        wcag_level_aa_pass: a,
        wcag_level_aaa_pass: total == 0,
    };
    let scans = vec![
        result(s(7, 2, 1, false), 1),
        result(s(5, 1, 1, false), 2),
        result(s(9, 0, 4, false), 3),
        result(s(2, 0, 0, true), 4),
    ];
    let c = generate_comparison(&scans);
    assert_eq!(c.total_scans, 4);
    assert_eq!((c.project_id >> 76) & 0xf, 4);
    assert_eq!(c.latest_scan.scan_duration_ms, 4);
    assert_eq!(c.previous_scan.as_ref().unwrap().scan_duration_ms, 3);
    assert_eq!(c.issue_trend.total_change, -7);
    assert_eq!(c.issue_trend.critical_change, 0);
    assert_eq!(c.issue_trend.serious_change, -4);
    assert_eq!(c.compliance_history.len(), 4);
    assert_eq!(
        c.compliance_history.iter().map(|h| h.total_issues).collect::<Vec<_>>(),
        vec![7, 5, 9, 2]
    );
    assert!(c.compliance_history[3].level_a_pass && !c.compliance_history[0].level_a_pass);
    assert_eq!(c.compliance_history[1].timestamp, scans[1].timestamp);
}
