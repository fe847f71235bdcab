use vstd::prelude::*;

verus! {

/// WCAG Level of compliance
#[derive(Debug, Clone, Copy, PartialEq, Eq, Structural)]
pub enum WcagLevel {
    A,
    AA,
    AAA,
}

/// Type of accessibility issue
#[derive(Debug, Clone, Copy, PartialEq, Eq, Structural)]
pub enum IssueType {
    Critical,
    Serious,
    Moderate,
    Minor,
}

/// A point in time in UTC: whole seconds since the Unix epoch and the
/// nanoseconds within that second.
#[derive(Debug, Clone, Copy, PartialEq, Eq, Structural)]
pub struct Timestamp {
    pub secs: i64,
    pub nanos: u32,
}

/// Copies an optional string, keeping it equal to the original.
pub fn copy_opt_string(s: &Option<String>) -> (r: Option<String>)
    ensures
        r == *s,
{
    match s {
        Some(x) => Some(x.clone()),
        None => None,
    }
}

/// WCAG criterion reference
#[derive(Debug)]
pub struct WcagCriterion {
    pub id: String,
    pub name: String,
    pub level: WcagLevel,
    pub description: String,
}

impl Clone for WcagCriterion {
    fn clone(&self) -> (r: Self)
        ensures
            r == *self,
    {
        WcagCriterion {
            id: self.id.clone(),
            name: self.name.clone(),
            level: self.level,
            description: self.description.clone(),
        }
    }
}


/// Location on a page where an issue was found
#[derive(Debug)]
pub struct PageLocation {
    pub selector: String,
    pub xpath: Option<String>,
    pub line_number: Option<u32>,
    pub column_number: Option<u32>,
}

impl Clone for PageLocation {
    fn clone(&self) -> (r: Self)
        ensures
            r == *self,
    {
        PageLocation {
            selector: self.selector.clone(),
            xpath: copy_opt_string(&self.xpath),
            line_number: self.line_number,
            column_number: self.column_number,
        }
    }
}

/// Accessibility issue found during audit. `id` holds the 128-bit value of
/// the issue's UUID.
#[derive(Debug)]
pub struct AccessibilityIssue {
    pub id: u128,
    pub type_: IssueType,
    pub rule_id: String,
    pub rule_name: String,
    pub description: String,
    pub help_url: String,
    pub target: Option<String>,
    pub html_snippet: Option<String>,
    pub wcag_criterion: Option<WcagCriterion>,
    pub location: Option<PageLocation>,
}

impl Clone for AccessibilityIssue {
    fn clone(&self) -> (r: Self)
        ensures
            r == *self,
    {
        let wcag_criterion = match &self.wcag_criterion {
            Some(c) => Some(c.clone()),
            None => None,
        };
        let location = match &self.location {
            Some(l) => Some(l.clone()),
            None => None,
        };
        AccessibilityIssue {
            id: self.id,
            type_: self.type_,
            rule_id: self.rule_id.clone(),
            rule_name: self.rule_name.clone(),
            description: self.description.clone(),
            help_url: self.help_url.clone(),
            target: copy_opt_string(&self.target),
            html_snippet: copy_opt_string(&self.html_snippet),
            wcag_criterion,
            location,
        }
    }
}

/// Summary of audit results
#[derive(Debug, Clone, Copy, PartialEq, Eq, Structural)]
pub struct AuditSummary {
    pub total_issues: usize,
    pub critical_count: usize,
    pub serious_count: usize,
    pub moderate_count: usize,
    pub minor_count: usize,
    pub wcag_level_a_pass: bool,
    pub wcag_level_aa_pass: bool,
    pub wcag_level_aaa_pass: bool,
}

/// Copies a list of issues; the copy equals the original.
pub fn copy_issues(v: &Vec<AccessibilityIssue>) -> (r: Vec<AccessibilityIssue>)
    ensures
        r@ == v@,
{
    let mut r: Vec<AccessibilityIssue> = Vec::new();
    let mut i: usize = 0;
    while i < v.len()
        invariant
            i <= v.len(),
            r@ == v@.take(i as int),
        decreases v.len() - i,
    {
        r.push(v[i].clone());
        i = i + 1;
        assert(r@ =~= v@.take(i as int));
    }
    assert(v@.take(v.len() as int) =~= v@);
    r
}

/// Result of a single page audit
#[derive(Debug)]
pub struct PageAuditResult {
    pub url: String,
    pub timestamp: Timestamp,
    pub issues: Vec<AccessibilityIssue>,
    pub summary: AuditSummary,
    pub page_title: Option<String>,
    pub scan_duration_ms: u64,
}

/// Mathematical value of a scan: the same fields, with the issue list as a
/// sequence.
pub struct ScanView {
    pub url: String,
    pub timestamp: Timestamp,
    pub issues: Seq<AccessibilityIssue>,
    pub summary: AuditSummary,
    pub page_title: Option<String>,
    pub scan_duration_ms: u64,
}

impl View for PageAuditResult {
    type V = ScanView;

    open spec fn view(&self) -> ScanView {
        ScanView {
            url: self.url,
            timestamp: self.timestamp,
            issues: self.issues@,
            summary: self.summary,
            page_title: self.page_title,
            scan_duration_ms: self.scan_duration_ms,
        }
    }
}

/// The values of a list of scans.
pub open spec fn scan_views(s: Seq<PageAuditResult>) -> Seq<ScanView> {
    s.map_values(|x: PageAuditResult| x@)
}

impl Clone for PageAuditResult {
    fn clone(&self) -> (r: Self)
        ensures
            r@ == self@,
    {
        PageAuditResult {
            url: self.url.clone(),
            timestamp: self.timestamp,
            issues: copy_issues(&self.issues),
            summary: self.summary,
            page_title: copy_opt_string(&self.page_title),
            scan_duration_ms: self.scan_duration_ms,
        }
    }
}

/// Copies a list of scans; the copy has the same values.
pub fn copy_scans(v: &Vec<PageAuditResult>) -> (r: Vec<PageAuditResult>)
    ensures
        scan_views(r@) == scan_views(v@),
{
    let mut r: Vec<PageAuditResult> = Vec::new();
    let mut i: usize = 0;
    while i < v.len()
        invariant
            i <= v.len(),
            r@.len() == i,
            forall|j: int| 0 <= j < i ==> #[trigger] r@[j]@ == v@[j]@,
        decreases v.len() - i,
    {
        let c = v[i].clone();
        r.push(c);
        i = i + 1;
    }
    assert(scan_views(r@) =~= scan_views(v@));
    r
}

/// Complete project containing multiple scans. `id` holds the 128-bit
/// value of the project's UUID.
#[derive(Debug)]
pub struct AuditProject {
    pub id: u128,
    pub name: String,
    pub description: Option<String>,
    pub created_at: Timestamp,
    pub updated_at: Timestamp,
    pub target_url: String,
    pub scans: Vec<PageAuditResult>,
}

/// Mathematical value of a project: the same fields, with the scans as a
/// sequence of scan values.
pub struct ProjectView {
    pub id: u128,
    pub name: String,
    pub description: Option<String>,
    pub created_at: Timestamp,
    pub updated_at: Timestamp,
    pub target_url: String,
    pub scans: Seq<ScanView>,
}

impl View for AuditProject {
    type V = ProjectView;

    open spec fn view(&self) -> ProjectView {
        ProjectView {
            id: self.id,
            name: self.name,
            description: self.description,
            created_at: self.created_at,
            updated_at: self.updated_at,
            target_url: self.target_url,
            scans: scan_views(self.scans@),
        }
    }
}

impl Clone for AuditProject {
    fn clone(&self) -> (r: Self)
        ensures
            r@ == self@,
    {
        AuditProject {
            id: self.id,
            name: self.name.clone(),
            description: copy_opt_string(&self.description),
            created_at: self.created_at,
            updated_at: self.updated_at,
            target_url: self.target_url.clone(),
            scans: copy_scans(&self.scans),
        }
    }
}

/// Request to start a new audit
#[derive(Debug)]
pub struct AuditRequest {
    pub url: String,
    pub project_id: Option<u128>,
    pub check_level: Option<WcagLevel>,
}

/// Response containing audit results
#[derive(Debug)]
pub struct AuditResponse {
    pub success: bool,
    pub result: Option<PageAuditResult>,
    pub error: Option<String>,
}

/// Project creation request
#[derive(Debug)]
pub struct CreateProjectRequest {
    pub name: String,
    pub description: Option<String>,
    pub target_url: String,
}

} // verus!
