//! Reports over the scans of a project: all scans, the latest one, and a
//! comparison of the latest scan with the one before it.

use vstd::prelude::*;
use crate::bindings::{
    new_uuid, parse_uuid, spec_parse_uuid, uuid_hyphenated, uuid_is_v4, uuid_text,
};
use crate::api::projects::{invalid_uuid_text, parse_project_id};
use crate::domain::errors::AppError;
use crate::domain::models::{scan_views, PageAuditResult, ProjectView, ScanView, Timestamp};
use crate::services::storage::{not_found_message, not_found_text, Storage};
use crate::utils::validators::concat2;

verus! {

/// Change in issue counts from the previous scan to the latest one.
#[derive(Debug, Clone, Copy, PartialEq, Eq, Structural)]
pub struct IssueTrend {
    pub total_change: i32,
    pub critical_change: i32,
    pub serious_change: i32,
}

/// Compliance of one scan, for the history of a project.
#[derive(Debug, Clone, Copy, PartialEq, Eq, Structural)]
pub struct ComplianceSnapshot {
    pub timestamp: Timestamp,
    pub level_a_pass: bool,
    pub level_aa_pass: bool,
    pub level_aaa_pass: bool,
    pub total_issues: usize,
}

/// Comparison of the scans of a project over time.
#[derive(Debug)]
pub struct ComparisonReport {
    pub project_id: u128,
    pub total_scans: usize,
    pub latest_scan: PageAuditResult,
    pub previous_scan: Option<PageAuditResult>,
    pub issue_trend: IssueTrend,
    pub compliance_history: Vec<ComplianceSnapshot>,
}

/// The change from `before` to `after`, each count taken as an `i32`.
pub open spec fn count_change(after: usize, before: usize) -> int {
    (after as i32) - (before as i32)
}

/// The changes between the last two scans fit in an `i32`.
pub open spec fn trend_fits(scans: Seq<ScanView>) -> bool {
    scans.len() >= 2 ==> {
        let latest = scans.last().summary;
        let previous = scans[scans.len() - 2].summary;
        &&& i32::MIN <= count_change(latest.total_issues, previous.total_issues) <= i32::MAX
        &&& i32::MIN <= count_change(latest.critical_count, previous.critical_count) <= i32::MAX
        &&& i32::MIN <= count_change(latest.serious_count, previous.serious_count) <= i32::MAX
    }
}

/// The trend of a list of scans: the change from the second-to-last scan to
/// the last, or no change where there is only one scan.
pub open spec fn trend_of(scans: Seq<ScanView>) -> IssueTrend {
    if scans.len() >= 2 {
        let latest = scans.last().summary;
        let previous = scans[scans.len() - 2].summary;
        IssueTrend {
            total_change: count_change(latest.total_issues, previous.total_issues) as i32,
            critical_change: count_change(latest.critical_count, previous.critical_count) as i32,
            serious_change: count_change(latest.serious_count, previous.serious_count) as i32,
        }
    } else {
        IssueTrend { total_change: 0, critical_change: 0, serious_change: 0 }
    }
}

/// The compliance snapshot of a scan.
pub open spec fn snapshot_of(scan: ScanView) -> ComplianceSnapshot {
    ComplianceSnapshot {
        timestamp: scan.timestamp,
        level_a_pass: scan.summary.wcag_level_a_pass,
        level_aa_pass: scan.summary.wcag_level_aa_pass,
        level_aaa_pass: scan.summary.wcag_level_aaa_pass,
        total_issues: scan.summary.total_issues,
    }
}

/// `c` is the comparison of the scans `scans`, oldest first: every field of
/// the report but its id is determined by them.
pub open spec fn comparison_of(c: ComparisonReport, scans: Seq<ScanView>) -> bool {
    &&& c.total_scans == scans.len()
    &&& c.latest_scan@ == scans.last()
    &&& scans.len() >= 2 ==> (c.previous_scan matches Some(p) && p@ == scans[scans.len() - 2])
    &&& scans.len() < 2 ==> c.previous_scan is None
    &&& c.issue_trend == trend_of(scans)
    &&& c.compliance_history@ == scans.map_values(|s: ScanView| snapshot_of(s))
}

/// Compares the scans of a project, oldest first: the number of scans, the
/// latest and the previous scan, the trend between them and the compliance
/// history of every scan. The report gets a fresh random id.
pub fn generate_comparison(scans: &[PageAuditResult]) -> (r: ComparisonReport)
    requires
        scans@.len() >= 1,
        trend_fits(scan_views(scans@)),
    ensures
        comparison_of(r, scan_views(scans@)),
        uuid_is_v4(r.project_id),
{
    let n = scans.len();
    let latest = &scans[n - 1];
    let ghost views = scan_views(scans@);
    assert(views.last() == scans@.last()@);
    let (previous, issue_trend) = if n >= 2 {
        let prev = &scans[n - 2];
        assert(views[n - 2] == prev@);
        let trend = IssueTrend {
            total_change: latest.summary.total_issues as i32 - prev.summary.total_issues as i32,
            critical_change: latest.summary.critical_count as i32 - prev.summary.critical_count as i32,
            serious_change: latest.summary.serious_count as i32 - prev.summary.serious_count as i32,
        };
        (Some(prev.clone()), trend)
    } else {
        (None, IssueTrend { total_change: 0, critical_change: 0, serious_change: 0 })
    };
    let mut history: Vec<ComplianceSnapshot> = Vec::new();
    let mut i: usize = 0;
    while i < n
        invariant
            n == scans@.len(),
            views == scan_views(scans@),
            i <= n,
            history@.len() == i,
            forall|j: int| 0 <= j < i ==> #[trigger] history@[j] == snapshot_of(views[j]),
        decreases n - i,
    {
        let s = &scans[i];
        assert(views[i as int] == s@);
        history.push(
            ComplianceSnapshot {
                timestamp: s.timestamp,
                level_a_pass: s.summary.wcag_level_a_pass,
                level_aa_pass: s.summary.wcag_level_aa_pass,
                level_aaa_pass: s.summary.wcag_level_aaa_pass,
                total_issues: s.summary.total_issues,
            },
        );
        i = i + 1;
    }
    assert(history@ =~= views.map_values(|s: ScanView| snapshot_of(s)));
    ComparisonReport {
        project_id: new_uuid(),
        total_scans: n,
        latest_scan: latest.clone(),
        previous_scan: previous,
        issue_trend,
        compliance_history: history,
    }
}


/// The error text where a project has no scans.
pub open spec fn no_scans_text(id: u128) -> Seq<char> {
    "No scans found for project: "@ + uuid_hyphenated(id)
}

/// All scans of the project named in the request path, oldest first: a
/// validation error where the id is not a UUID, not found where no such
/// project is stored.
pub fn get_project_reports(storage: &Storage, id: &str) -> (r: Result<Vec<PageAuditResult>, AppError>)
    ensures
        spec_parse_uuid(id@) is None ==> (r matches Err(AppError::ValidationError(m)) && m@
            == invalid_uuid_text()),
        spec_parse_uuid(id@) matches Some(k) ==> (storage@.contains_key(k) ==> (r matches Ok(v)
            && scan_views(v@) == storage@[k].scans)),
        spec_parse_uuid(id@) matches Some(k) ==> (!storage@.contains_key(k) ==> (r matches Err(
            AppError::NotFound(m),
        ) && m@ == not_found_text(k))),
{
    let k = match parse_project_id(id) {
        Ok(k) => k,
        Err(e) => return Err(e),
    };
    match storage.compare_scans(k) {
        Some(v) => Ok(v),
        None => Err(AppError::NotFound(not_found_message(k))),
    }
}

/// The latest scan of the project named in the request path: a validation
/// error where the id is not a UUID, not found where no such project is
/// stored or it has no scans.
pub fn get_latest_report(storage: &Storage, id: &str) -> (r: Result<PageAuditResult, AppError>)
    ensures
        spec_parse_uuid(id@) is None ==> (r matches Err(AppError::ValidationError(m)) && m@
            == invalid_uuid_text()),
        spec_parse_uuid(id@) matches Some(k) ==> (storage@.contains_key(k)
            && storage@[k].scans.len() > 0 ==> (r matches Ok(s) && s@ == storage@[k].scans.last())),
        spec_parse_uuid(id@) matches Some(k) ==> (!(storage@.contains_key(k)
            && storage@[k].scans.len() > 0) ==> (r matches Err(AppError::NotFound(m)) && m@
            == no_scans_text(k))),
{
    let k = match parse_project_id(id) {
        Ok(k) => k,
        Err(e) => return Err(e),
    };
    match storage.get_latest_scan(k) {
        Some(s) => Ok(s),
        None => {
            let t = uuid_text(k);
            Err(AppError::NotFound(concat2("No scans found for project: ", t.as_str())))
        },
    }
}

/// What `compare_scans` answers for the project id text `id` in a storage
/// holding `projects`.
pub open spec fn compare_answer(
    projects: Map<u128, ProjectView>,
    id: Seq<char>,
    r: Result<ComparisonReport, AppError>,
) -> bool {
    match spec_parse_uuid(id) {
        None => r matches Err(AppError::ValidationError(m)) && m@ == invalid_uuid_text(),
        Some(k) => if !projects.contains_key(k) {
            r matches Err(AppError::NotFound(m)) && m@ == not_found_text(k)
        } else if projects[k].scans.len() == 0 {
            r matches Err(AppError::NotFound(m)) && m@ == "No scans available for comparison"@
        } else {
            r matches Ok(c) && comparison_of(c, projects[k].scans) && c.project_id == k
        },
    }
}

/// The comparison for the project id text `id` can be computed: the id
/// does not name a stored project, or the trend of its scans fits.
pub open spec fn comparison_computable(
    projects: Map<u128, ProjectView>,
    id: Seq<char>,
) -> bool {
    match spec_parse_uuid(id) {
        Some(k) => projects.contains_key(k) ==> trend_fits(projects[k].scans),
        None => true,
    }
}

/// Whether the changes between the last two scans fit in an `i32`.
pub fn trend_fits_in_i32(scans: &[PageAuditResult]) -> (r: bool)
    ensures
        r == trend_fits(scan_views(scans@)),
{
    let n = scans.len();
    if n < 2 {
        return true;
    }
    let latest = &scans[n - 1].summary;
    let previous = &scans[n - 2].summary;
    assert(scan_views(scans@).last().summary == *latest);
    assert(scan_views(scans@)[n - 2].summary == *previous);
    let total = latest.total_issues as i32 as i64 - previous.total_issues as i32 as i64;
    let critical = latest.critical_count as i32 as i64 - previous.critical_count as i32 as i64;
    let serious = latest.serious_count as i32 as i64 - previous.serious_count as i32 as i64;
    let lo = i32::MIN as i64;
    let hi = i32::MAX as i64;
    lo <= total && total <= hi && lo <= critical && critical <= hi && lo <= serious && serious <= hi
}

/// Compares the scans of the project named in the request path: a
/// validation error where the id is not a UUID, not found where no such
/// project is stored or it has no scans; otherwise the comparison of its
/// scans, under the project's id.
pub fn compare_scans(storage: &Storage, id: &str) -> (r: Result<ComparisonReport, AppError>)
    requires
        comparison_computable(storage@, id@),
    ensures
        compare_answer(storage@, id@, r),
{
    let k = match parse_project_id(id) {
        Ok(k) => k,
        Err(e) => return Err(e),
    };
    let scans = match storage.compare_scans(k) {
        Some(v) => v,
        None => return Err(AppError::NotFound(not_found_message(k))),
    };
    if scans.len() == 0 {
        return Err(AppError::NotFound("No scans available for comparison".to_owned()));
    }
    let mut report = generate_comparison(scans.as_slice());
    report.project_id = k;
    Ok(report)
}

/// Compares the scans of the project named in the request path where the
/// comparison can be computed, and gives `None` where the changes between
/// its last two scans do not fit in an `i32`.
pub fn compare_scans_checked(storage: &Storage, id: &str) -> (r: Option<
    Result<ComparisonReport, AppError>,
>)
    ensures
        r is None <==> !comparison_computable(storage@, id@),
        r matches Some(a) ==> compare_answer(storage@, id@, a),
{
    match parse_uuid(id) {
        Some(k) => match storage.compare_scans(k) {
            Some(v) => {
                if !trend_fits_in_i32(v.as_slice()) {
                    return None;
                }
            },
            None => {},
        },
        None => {},
    }
    Some(compare_scans(storage, id))
}

} // verus!
