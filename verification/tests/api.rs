use accessibility_audit_backend::api::audit::record_audit_outcome;
use accessibility_audit_backend::api::projects::{
    create_project, delete_project, get_project, update_project,
};
use accessibility_audit_backend::api::reports::{
    compare_scans, compare_scans_checked, get_latest_report, get_project_reports,
};
use accessibility_audit_backend::domain::errors::AppError;
use accessibility_audit_backend::domain::models::{
    AuditRequest, AuditSummary, CreateProjectRequest, PageAuditResult, Timestamp,
};
use accessibility_audit_backend::services::storage::{ProjectUpdates, Storage};

fn scan(total: usize) -> PageAuditResult {
    PageAuditResult {
        url: "https://example.com".to_string(),
        timestamp: Timestamp { secs: 1_700_000_000, nanos: 0 },
        issues: vec![],
        summary: AuditSummary {
            total_issues: total,
            critical_count: total,
            serious_count: 0,
            moderate_count: 0,
            minor_count: 0,
            wcag_level_a_pass: total == 0,
            wcag_level_aa_pass: total == 0,
            wcag_level_aaa_pass: total == 0,
        },
        page_title: None,
        scan_duration_ms: 10,
    }
}

fn new_project(storage: &mut Storage) -> u128 {
    create_project(
        storage,
        CreateProjectRequest {
            name: "Test".to_string(),
            description: None,
            target_url: "https://example.com".to_string(),
        },
    )
    .unwrap()
    .id
}

fn text(id: u128) -> String {
    uuid::Uuid::from_u128(id).to_string()
}

#[test]
fn handler_create_project_accepts_a_valid_request() {
    let mut storage = Storage::new();
    let id = new_project(&mut storage);
    assert_eq!(get_project(&storage, &text(id)).unwrap().name, "Test");
    assert_eq!(storage.list_projects().len(), 1);
}

#[test]
fn handler_create_project_rejects_an_invalid_request() {
    let mut storage = Storage::new();
    let r = create_project(
        &mut storage,
        CreateProjectRequest {
            name: "".to_string(),
            description: None,
            target_url: "not-a-url".to_string(),
        },
    );
    let e = r.unwrap_err();
    assert_eq!(e.status_code(), 400);
    assert!(matches!(e, AppError::ValidationError(_)));
    assert!(storage.list_projects().is_empty());
}

#[test]
fn handler_get_project_rejects_a_malformed_id() {
    let storage = Storage::new();
    match get_project(&storage, "not-a-uuid") {
        Err(AppError::ValidationError(m)) => assert_eq!(m, "Invalid UUID format"),
        other => panic!("unexpected {:?}", other),
    }
}

#[test]
fn handler_get_project_reports_missing_projects() {
    let storage = Storage::new();
    let fake = uuid::Uuid::new_v4();
    match get_project(&storage, &fake.to_string()) {
        Err(e @ AppError::NotFound(_)) => {
            assert_eq!(e.status_code(), 404);
            assert_eq!(e.message(), format!("Project not found: {}", fake));
        }
        other => panic!("unexpected {:?}", other),
    }
}

#[test]
fn handler_update_and_delete_project() {
    let mut storage = Storage::new();
    let id = new_project(&mut storage);
    let u = update_project(
        &mut storage,
        &text(id),
        ProjectUpdates { name: Some("Renamed".to_string()), description: None, target_url: None },
    )
    .unwrap();
    assert_eq!(u.name, "Renamed");
    delete_project(&mut storage, &text(id)).unwrap();
    assert!(matches!(get_project(&storage, &text(id)), Err(AppError::NotFound(_))));
    assert!(matches!(delete_project(&mut storage, &text(id)), Err(AppError::NotFound(_))));
    assert!(matches!(
        update_project(&mut storage, &text(id), ProjectUpdates { name: None, description: None, target_url: None }),
        Err(AppError::NotFound(_))
    ));
    assert!(matches!(delete_project(&mut storage, "zzz"), Err(AppError::ValidationError(_))));
}

#[test]
fn reports_follow_the_scans_of_a_project() {
    let mut storage = Storage::new();
    let id = new_project(&mut storage);
    assert!(get_project_reports(&storage, &text(id)).unwrap().is_empty());
    match get_latest_report(&storage, &text(id)) {
        Err(AppError::NotFound(m)) => assert_eq!(m, format!("No scans found for project: {}", text(id))),
        other => panic!("unexpected {:?}", other),
    }
    match compare_scans(&storage, &text(id)) {
        Err(AppError::NotFound(m)) => assert_eq!(m, "No scans available for comparison"),
        other => panic!("unexpected {:?}", other),
    }
    storage.add_scan(id, scan(4)).unwrap();
    storage.add_scan(id, scan(1)).unwrap();
    assert_eq!(get_project_reports(&storage, &text(id)).unwrap().len(), 2);
    assert_eq!(get_latest_report(&storage, &text(id)).unwrap().summary.total_issues, 1);
    let c = compare_scans(&storage, &text(id)).unwrap();
    assert_eq!(c.project_id, id);
    assert_eq!(c.total_scans, 2);
    assert_eq!(c.issue_trend.total_change, -3);
    assert_eq!(c.issue_trend.critical_change, -3);

    let fake = uuid::Uuid::new_v4().to_string();
    assert!(matches!(get_project_reports(&storage, &fake), Err(AppError::NotFound(_))));
    assert!(matches!(compare_scans(&storage, &fake), Err(AppError::NotFound(_))));
    assert!(matches!(get_latest_report(&storage, "1234"), Err(AppError::ValidationError(_))));
}

#[test]
fn deleted_project_has_no_reports() {
    let mut storage = Storage::new();
    let id = new_project(&mut storage);
    storage.add_scan(id, scan(2)).unwrap();
    delete_project(&mut storage, &text(id)).unwrap();
    assert!(matches!(get_project_reports(&storage, &text(id)), Err(AppError::NotFound(_))));
    assert!(matches!(get_latest_report(&storage, &text(id)), Err(AppError::NotFound(_))));
}

#[test]
fn successful_audit_is_saved_to_its_project() {
    let mut storage = Storage::new();
    let id = new_project(&mut storage);
    let request = AuditRequest { url: "https://example.com".to_string(), project_id: Some(id), check_level: None };
    let response = record_audit_outcome(&mut storage, &request, Ok(scan(3)));
    assert!(response.success);
    assert_eq!(response.result.unwrap().summary.total_issues, 3);
    assert!(response.error.is_none());
    assert_eq!(storage.get_latest_scan(id).unwrap().summary.total_issues, 3);
}

#[test]
fn audit_for_unknown_project_is_answered_but_not_saved() {
    let mut storage = Storage::new();
    let request = AuditRequest {
        url: "https://example.com".to_string(),
        project_id: Some(uuid::Uuid::new_v4().as_u128()),
        check_level: None,
    };
    let response = record_audit_outcome(&mut storage, &request, Ok(scan(0)));
    assert!(response.success);
    assert!(storage.list_projects().is_empty());
}

#[test]
fn failed_audit_is_reported() {
    let mut storage = Storage::new();
    let id = new_project(&mut storage);
    let request = AuditRequest { url: "https://example.com".to_string(), project_id: Some(id), check_level: None };
    let response = record_audit_outcome(
        &mut storage,
        &request,
        Err(AppError::BrowserError("Browser automation error: no chrome".to_string())),
    );
    assert!(!response.success);
    assert!(response.result.is_none());
    assert_eq!(response.error.unwrap(), "Audit failed: Browser automation error: no chrome");
    assert!(storage.get_latest_scan(id).is_none());
}

#[test]
fn comparison_that_cannot_be_represented_is_refused() {
    let mut storage = Storage::new();
    let id = new_project(&mut storage);
    storage.add_scan(id, scan(1usize << 31)).unwrap();
    storage.add_scan(id, scan(i32::MAX as usize)).unwrap();
    assert!(compare_scans_checked(&storage, &text(id)).is_none());

    let mut fine = Storage::new();
    let other = new_project(&mut fine);
    fine.add_scan(other, scan(2)).unwrap();
    fine.add_scan(other, scan(5)).unwrap();
    let answer = compare_scans_checked(&fine, &text(other)).unwrap().unwrap();
    assert_eq!(answer.issue_trend.total_change, 3);
    assert!(matches!(compare_scans_checked(&fine, "bad"), Some(Err(AppError::ValidationError(_)))));
}

#[test]
fn latest_scan_survives_operations_on_other_projects() {
    let mut storage = Storage::new();
    let id = new_project(&mut storage);
    storage.add_scan(id, scan(7)).unwrap();
    let other = new_project(&mut storage);
    storage.add_scan(other, scan(1)).unwrap();
    update_project(
        &mut storage,
        &text(id),
        ProjectUpdates { name: Some("Renamed".to_string()), description: None, target_url: None },
    )
    .unwrap();
    delete_project(&mut storage, &text(other)).unwrap();
    assert_eq!(get_latest_report(&storage, &text(id)).unwrap().summary.total_issues, 7);
}

#[test]
fn printed_id_of_a_created_project_finds_it() {
    let mut storage = Storage::new();
    let p = create_project(
        &mut storage,
        CreateProjectRequest {
            name: "Printed".to_string(),
            description: Some("d".to_string()),
            target_url: "https://example.com".to_string(),
        },
    )
    .unwrap();
    let found = get_project(&storage, &uuid::Uuid::from_u128(p.id).to_string()).unwrap();
    assert_eq!(found.id, p.id);
    assert_eq!(found.name, "Printed");
    assert_eq!(found.description, Some("d".to_string()));
}
