use accessibility_audit_backend::domain::models::{
    AuditSummary, CreateProjectRequest, PageAuditResult, Timestamp,
};
use accessibility_audit_backend::services::storage::{ProjectUpdates, Storage};

fn now() -> Timestamp {
    let t = chrono::Utc::now();
    Timestamp { secs: t.timestamp(), nanos: t.timestamp_subsec_nanos() }
}

fn scan(total: usize, duration: u64) -> PageAuditResult {
    PageAuditResult {
        url: "https://example.com".to_string(),
        timestamp: now(),
        issues: vec![],
        summary: AuditSummary {
            total_issues: total,
            critical_count: 0,
            serious_count: 0,
            moderate_count: 0,
            minor_count: total,
            wcag_level_a_pass: true,
            wcag_level_aa_pass: true,
            wcag_level_aaa_pass: total == 0,
        },
        page_title: Some("Test Page".to_string()),
        scan_duration_ms: duration,
    }
}

fn request(name: &str) -> CreateProjectRequest {
    CreateProjectRequest {
        name: name.to_string(),
        description: None,
        target_url: "https://example.com".to_string(),
    }
}

#[test]
fn test_create_and_get_project() {
    let mut storage = Storage::new();

    let request = CreateProjectRequest {
        name: "Test Project".to_string(),
        description: Some("A test project".to_string()),
        target_url: "https://example.com".to_string(),
    };

    let project = storage.create_project(request).unwrap();
    assert_eq!(project.name, "Test Project");

    let retrieved = storage.get_project(project.id).unwrap();
    assert_eq!(retrieved.name, "Test Project");
}

#[test]
fn test_list_projects() {
    let mut storage = Storage::new();

    storage.create_project(CreateProjectRequest {
        name: "Project 1".to_string(),
        description: None,
        target_url: "https://example.com".to_string(),
    }).unwrap();

    storage.create_project(CreateProjectRequest {
        name: "Project 2".to_string(),
        description: None,
        target_url: "https://test.com".to_string(),
    }).unwrap();

    let projects = storage.list_projects();
    assert_eq!(projects.len(), 2);
}

#[test]
fn test_add_scan() {
    let mut storage = Storage::new();

    let project = storage.create_project(CreateProjectRequest {
        name: "Test Project".to_string(),
        description: None,
        target_url: "https://example.com".to_string(),
    }).unwrap();

    let scan = PageAuditResult {
        url: "https://example.com".to_string(),
        timestamp: now(),
        issues: vec![],
        summary: AuditSummary {
            total_issues: 0,
            critical_count: 0,
            serious_count: 0,
            moderate_count: 0,
            minor_count: 0,
            wcag_level_a_pass: true,
            wcag_level_aa_pass: true,
            wcag_level_aaa_pass: true,
        },
        page_title: Some("Test Page".to_string()),
        scan_duration_ms: 1000,
    };

    let updated = storage.add_scan(project.id, scan).unwrap();
    assert_eq!(updated.scans.len(), 1);
}

#[test]
fn test_delete_project() {
    let mut storage = Storage::new();

    let project = storage.create_project(CreateProjectRequest {
        name: "Test Project".to_string(),
        description: None,
        target_url: "https://example.com".to_string(),
    }).unwrap();

    assert!(storage.get_project(project.id).is_some());

    storage.delete_project(project.id).unwrap();

    assert!(storage.get_project(project.id).is_none());
}

#[test]
fn test_nonexistent_project() {
    let mut storage = Storage::new();
    let fake_id = uuid::Uuid::new_v4().as_u128();

    assert!(storage.get_project(fake_id).is_none());
    assert!(storage.delete_project(fake_id).is_err());
}

#[test]
fn created_project_starts_without_scans() {
    let mut storage = Storage::default();
    let p = storage.create_project(request("P")).unwrap();
    assert!(p.scans.is_empty());
    assert_eq!((p.id >> 76) & 0xf, 4);
    assert_eq!(p.created_at, p.updated_at);
    assert_eq!(p.target_url, "https://example.com");
    assert!(storage.get_latest_scan(p.id).is_none());
    assert_eq!(storage.compare_scans(p.id).unwrap().len(), 0);
}

#[test]
fn list_holds_each_project_once() {
    let mut storage = Storage::new();
    let a = storage.create_project(request("A")).unwrap();
    let b = storage.create_project(request("B")).unwrap();
    let c = storage.create_project(request("C")).unwrap();
    storage.delete_project(b.id).unwrap();
    let mut ids: Vec<u128> = storage.list_projects().iter().map(|p| p.id).collect();
    ids.sort();
    let mut expected = vec![a.id, c.id];
    expected.sort();
    assert_eq!(ids, expected);
    assert!(Storage::new().list_projects().is_empty());
}

#[test]
fn deleting_twice_fails_with_not_found_text() {
    let mut storage = Storage::new();
    let p = storage.create_project(request("P")).unwrap();
    storage.delete_project(p.id).unwrap();
    let err = storage.delete_project(p.id).unwrap_err();
    assert_eq!(err, format!("Project not found: {}", uuid::Uuid::from_u128(p.id)));
}

#[test]
fn added_scans_keep_their_order_and_the_latest_is_last() {
    let mut storage = Storage::new();
    let p = storage.create_project(request("P")).unwrap();
    storage.add_scan(p.id, scan(5, 1000)).unwrap();
    let updated = storage.add_scan(p.id, scan(3, 900)).unwrap();
    assert_eq!(updated.scans.len(), 2);
    assert_eq!(updated.name, "P");
    let latest = storage.get_latest_scan(p.id).unwrap();
    assert_eq!(latest.summary.total_issues, 3);
    assert_eq!(latest.scan_duration_ms, 900);
    let all = storage.compare_scans(p.id).unwrap();
    assert_eq!(all.iter().map(|s| s.summary.total_issues).collect::<Vec<_>>(), vec![5, 3]);
}

#[test]
fn adding_a_scan_to_a_missing_project_fails() {
    let mut storage = Storage::new();
    let id = uuid::Uuid::new_v4().as_u128();
    let err = storage.add_scan(id, scan(0, 1)).unwrap_err();
    assert_eq!(err, format!("Project not found: {}", uuid::Uuid::from_u128(id)));
    assert!(storage.list_projects().is_empty());
    assert!(storage.compare_scans(id).is_none());
}

#[test]
fn update_replaces_only_given_fields() {
    let mut storage = Storage::new();
    let p = storage.create_project(CreateProjectRequest {
        name: "Old".to_string(),
        description: Some("desc".to_string()),
        target_url: "https://example.com".to_string(),
    }).unwrap();
    storage.add_scan(p.id, scan(1, 10)).unwrap();
    let u = storage
        .update_project(p.id, ProjectUpdates { name: Some("New".to_string()), description: None, target_url: None })
        .unwrap();
    assert_eq!(u.id, p.id);
    assert_eq!(u.name, "New");
    assert_eq!(u.description, Some("desc".to_string()));
    assert_eq!(u.target_url, "https://example.com");
    assert_eq!(u.scans.len(), 1);
    assert_eq!(u.created_at, p.created_at);

    let u2 = storage
        .update_project(p.id, ProjectUpdates { name: None, description: Some(None), target_url: Some("https://a.org".to_string()) })
        .unwrap();
    assert_eq!(u2.description, None);
    assert_eq!(u2.target_url, "https://a.org");
    assert_eq!(storage.get_project(p.id).unwrap().name, "New");

    let missing = uuid::Uuid::new_v4().as_u128();
    assert!(storage
        .update_project(missing, ProjectUpdates { name: None, description: None, target_url: None })
        .is_err());
}
