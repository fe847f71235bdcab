use accessibility_audit_backend::domain::models::{
    AccessibilityIssue, AuditRequest, AuditSummary, CreateProjectRequest, IssueType,
    PageAuditResult, Timestamp, WcagLevel,
};
use accessibility_audit_backend::domain::errors::AppError;
use accessibility_audit_backend::services::audit_service::calculate_summary;

fn now() -> Timestamp {
    let t = chrono::Utc::now();
    Timestamp { secs: t.timestamp(), nanos: t.timestamp_subsec_nanos() }
}

#[test]
fn test_audit_summary_creation() {
    let issues: Vec<AccessibilityIssue> = vec![];
    let summary = calculate_summary(&issues);

    assert_eq!(summary.total_issues, 0);
    assert!(summary.wcag_level_a_pass);
    assert!(summary.wcag_level_aa_pass);
}

#[test]
fn test_audit_request_validation() {
    let valid_request = AuditRequest {
        url: "https://example.com".to_string(),
        project_id: None,
        check_level: Some(WcagLevel::AA),
    };

    assert!(valid_request.validate().is_ok());

    let invalid_request = AuditRequest {
        url: "not-a-url".to_string(),
        project_id: None,
        check_level: None,
    };

    assert!(invalid_request.validate().is_err());
}

#[test]
fn test_create_project_request_validation() {
    let valid_request = CreateProjectRequest {
        name: "Test Project".to_string(),
        description: Some("A test project".to_string()),
        target_url: "https://example.com".to_string(),
    };

    assert!(valid_request.validate().is_ok());

    let invalid_name = CreateProjectRequest {
        name: "".to_string(),
        description: None,
        target_url: "https://example.com".to_string(),
    };

    assert!(invalid_name.validate().is_err());

    let invalid_url = CreateProjectRequest {
        name: "Test".to_string(),
        description: None,
        target_url: "not-a-url".to_string(),
    };

    assert!(invalid_url.validate().is_err());
}

#[test]
fn test_page_audit_result_structure() {
    let result = PageAuditResult {
        url: "https://example.com".to_string(),
        timestamp: now(),
        issues: vec![],
        summary: AuditSummary {
            total_issues: 0,
            critical_count: 0,
            serious_count: 0,
            moderate_count: 0,
            minor_count: 0,
            wcag_level_a_pass: true,
            wcag_level_aa_pass: true,
            wcag_level_aaa_pass: true,
        },
        page_title: Some("Test Page".to_string()),
        scan_duration_ms: 1500,
    };

    assert_eq!(result.url, "https://example.com");
    assert_eq!(result.issues.len(), 0);
    assert_eq!(result.scan_duration_ms, 1500);
}

#[test]
fn test_issue_creation() {
    let issue = AccessibilityIssue {
        id: uuid::Uuid::new_v4().as_u128(),
        type_: IssueType::Critical,
        rule_id: "image-alt".to_string(),
        rule_name: "Images must have alternate text".to_string(),
        description: "Image elements must have alt attributes".to_string(),
        help_url: "https://dequeuniversity.com/rules/axe/4.8/image-alt".to_string(),
        target: Some("img.hero-image".to_string()),
        html_snippet: Some("<img src=\"hero.jpg\">".to_string()),
        wcag_criterion: None,
        location: None,
    };

    assert_eq!(issue.rule_id, "image-alt");
    assert_eq!(issue.type_, IssueType::Critical);
    assert!(issue.target.is_some());
}

#[test]
fn audit_request_validation_error_is_the_validators_error_set() {
    let invalid_request = AuditRequest {
        url: "not-a-url".to_string(),
        project_id: None,
        check_level: None,
    };
    match invalid_request.validate() {
        Err(AppError::ValidationError(m)) => assert_eq!(
            m,
            "Validation failed: ValidationErrors({\"url\": Field([ValidationError { code: \"url\", message: Some(\"Invalid URL format\"), params: {\"value\": String(\"not-a-url\")} }])})"
        ),
        other => panic!("unexpected {:?}", other),
    }
}

#[test]
fn create_project_request_validation_names_each_failing_field() {
    let both = CreateProjectRequest {
        name: "".to_string(),
        description: None,
        target_url: "not-a-url".to_string(),
    };
    match both.validate() {
        Err(AppError::ValidationError(m)) => {
            assert!(m.starts_with("Validation failed: ValidationErrors({"));
            assert!(m.contains("\"name\": Field([ValidationError { code: \"length\", message: Some(\"Name must be between 1 and 200 characters\")"));
            assert!(m.contains("\"min\": Number(1)"));
            assert!(m.contains("\"max\": Number(200)"));
            assert!(m.contains("\"value\": String(\"\")"));
            assert!(m.contains("\"target_url\": Field([ValidationError { code: \"url\", message: Some(\"Invalid URL format\"), params: {\"value\": String(\"not-a-url\")} }])"));
        }
        other => panic!("unexpected {:?}", other),
    }
    let long_name = CreateProjectRequest {
        name: "x".repeat(201),
        description: None,
        target_url: "https://example.com".to_string(),
    };
    match long_name.validate() {
        Err(AppError::ValidationError(m)) => {
            assert!(m.starts_with("Validation failed: ValidationErrors({\"name\": Field(["));
            assert!(!m.contains("target_url"));
        }
        other => panic!("unexpected {:?}", other),
    }
    let max_name = CreateProjectRequest {
        name: "é".repeat(200),
        description: None,
        target_url: "https://example.com".to_string(),
    };
    assert!(max_name.validate().is_ok());
}

#[test]
fn error_statuses_and_kinds_follow_the_api_table() {
    let cases = vec![
        (AppError::ValidationError("a".to_string()), 400, "validation_error"),
        (AppError::BrowserError("b".to_string()), 400, "browser_error"),
        (AppError::NetworkError("c".to_string()), 502, "network_error"),
        (AppError::NotFound("d".to_string()), 404, "not_found"),
        (AppError::InternalError("e".to_string()), 500, "internal_error"),
    ];
    for (e, status, kind) in cases {
        assert_eq!(e.status_code(), status);
        assert_eq!(e.error_type(), kind);
    }
    assert_eq!(AppError::NotFound("gone".to_string()).message(), "gone");
    assert_eq!(AppError::InternalError("boom".to_string()).to_string(), "boom");
}
