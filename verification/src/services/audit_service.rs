use vstd::prelude::*;
use crate::bindings::{new_uuid, regex_first_capture, regex_first_group, uuid_is_v4};
use crate::domain::models::{
    copy_opt_string, AccessibilityIssue, AuditSummary, IssueType, PageAuditResult, Timestamp,
};

verus! {

/// Number of issues of the given type in a list of issues.
pub open spec fn count_type(s: Seq<AccessibilityIssue>, t: IssueType) -> nat
    decreases s.len(),
{
    if s.len() == 0 {
        0
    } else {
        count_type(s.drop_last(), t) + (if s.last().type_ == t {
            1nat
        } else {
            0nat
        })
    }
}

/// The summary of a list of issues: the number of issues of each type, and
/// which WCAG levels pass. Level A passes when there is no critical and no
/// serious issue, level AA when moreover there is no moderate issue, and
/// level AAA only when there is no issue at all.
pub open spec fn summary_of(s: Seq<AccessibilityIssue>) -> AuditSummary {
    let critical = count_type(s, IssueType::Critical);
    let serious = count_type(s, IssueType::Serious);
    let moderate = count_type(s, IssueType::Moderate);
    AuditSummary {
        total_issues: s.len() as usize,
        critical_count: critical as usize,
        serious_count: serious as usize,
        moderate_count: moderate as usize,
        minor_count: count_type(s, IssueType::Minor) as usize,
        wcag_level_a_pass: critical == 0 && serious == 0,
        wcag_level_aa_pass: critical == 0 && serious == 0 && moderate == 0,
        wcag_level_aaa_pass: s.len() == 0,
    }
}

/// No type has more issues than the list has.
pub proof fn lemma_count_type_bounded(s: Seq<AccessibilityIssue>, t: IssueType)
    ensures
        count_type(s, t) <= s.len(),
    decreases s.len(),
{
    if s.len() > 0 {
        lemma_count_type_bounded(s.drop_last(), t);
    }
}

/// Every issue has exactly one of the four types, so the four counts add up
/// to the number of issues.
pub proof fn lemma_counts_add_up(s: Seq<AccessibilityIssue>)
    ensures
        count_type(s, IssueType::Critical) + count_type(s, IssueType::Serious) + count_type(
            s,
            IssueType::Moderate,
        ) + count_type(s, IssueType::Minor) == s.len(),
    decreases s.len(),
{
    if s.len() > 0 {
        lemma_counts_add_up(s.drop_last());
    }
}

/// Calculate audit summary from issues
pub fn calculate_summary(issues: &[AccessibilityIssue]) -> (r: AuditSummary)
    ensures
        r == summary_of(issues@),
        r.critical_count + r.serious_count + r.moderate_count + r.minor_count == r.total_issues,
{
    let mut critical: usize = 0;
    let mut serious: usize = 0;
    let mut moderate: usize = 0;
    let mut minor: usize = 0;
    let mut i: usize = 0;
    while i < issues.len()
        invariant
            i <= issues@.len(),
            critical == count_type(issues@.take(i as int), IssueType::Critical),
            serious == count_type(issues@.take(i as int), IssueType::Serious),
            moderate == count_type(issues@.take(i as int), IssueType::Moderate),
            minor == count_type(issues@.take(i as int), IssueType::Minor),
        decreases issues@.len() - i,
    {
        let ghost before = issues@.take(i as int);
        proof {
            lemma_count_type_bounded(before, IssueType::Critical);
            lemma_count_type_bounded(before, IssueType::Serious);
            lemma_count_type_bounded(before, IssueType::Moderate);
            lemma_count_type_bounded(before, IssueType::Minor);
        }
        match issues[i].type_ {
            IssueType::Critical => critical = critical + 1,
            IssueType::Serious => serious = serious + 1,
            IssueType::Moderate => moderate = moderate + 1,
            IssueType::Minor => minor = minor + 1,
        }
        assert(issues@.take(i + 1).drop_last() =~= before);
        i = i + 1;
    }
    assert(issues@.take(issues@.len() as int) =~= issues@);
    proof {
        lemma_counts_add_up(issues@);
    }
    AuditSummary {
        total_issues: issues.len(),
        critical_count: critical,
        serious_count: serious,
        moderate_count: moderate,
        minor_count: minor,
        wcag_level_a_pass: critical == 0 && serious == 0,
        wcag_level_aa_pass: critical == 0 && serious == 0 && moderate == 0,
        wcag_level_aaa_pass: issues.len() == 0,
    }
}


/// Page title of an HTML document: capture group 1 of the first match of
/// `<title>(.*?)</title>` in the text, if any.
pub fn extract_page_title(html: &str) -> (r: Option<String>)
    ensures
        r matches Some(t) ==> regex_first_group("<title>(.*?)</title>"@, html@) == Some(t@),
        r is None ==> regex_first_group("<title>(.*?)</title>"@, html@) is None,
{
    regex_first_capture("<title>(.*?)</title>", html)
}

/// Assembles the result of a page audit from what the browser gave and the
/// time it took; the summary is computed from the issues.
pub fn build_audit_result(
    url: &str,
    timestamp: Timestamp,
    issues: Vec<AccessibilityIssue>,
    page_title: Option<String>,
    scan_duration_ms: u64,
) -> (r: PageAuditResult)
    ensures
        r.url@ == url@,
        r.timestamp == timestamp,
        r.issues@ == issues@,
        r.summary == summary_of(issues@),
        r.page_title == page_title,
        r.scan_duration_ms == scan_duration_ms,
{
    let summary = calculate_summary(issues.as_slice());
    PageAuditResult {
        url: url.to_owned(),
        timestamp,
        issues,
        summary,
        page_title,
        scan_duration_ms,
    }
}

/// What a basic in-page check reported of one violation: each field that
/// the page gave as a string (and, for `issue_type`, as the name of an
/// issue type), or `None` where it was missing or of another kind.
#[derive(Debug)]
pub struct RawIssue {
    pub issue_type: Option<IssueType>,
    pub rule_id: Option<String>,
    pub rule_name: Option<String>,
    pub description: Option<String>,
    pub help_url: Option<String>,
    pub target: Option<String>,
    pub html: Option<String>,
}

/// A reported violation can become an issue when its type, rule id, rule
/// name, description and help URL are all present.
pub open spec fn raw_is_complete(raw: RawIssue) -> bool {
    &&& raw.issue_type is Some
    &&& raw.rule_id is Some
    &&& raw.rule_name is Some
    &&& raw.description is Some
    &&& raw.help_url is Some
}

/// The issue that a complete reported violation becomes, under the given id.
pub open spec fn issue_from_raw(raw: RawIssue, id: u128) -> AccessibilityIssue {
    AccessibilityIssue {
        id,
        type_: raw.issue_type->0,
        rule_id: raw.rule_id->0,
        rule_name: raw.rule_name->0,
        description: raw.description->0,
        help_url: raw.help_url->0,
        target: raw.target,
        html_snippet: raw.html,
        wcag_criterion: None,
        location: None,
    }
}

/// Parse a basic issue reported by the page: `None` unless every required
/// field is present; otherwise an issue with those fields and a fresh
/// random id.
pub fn parse_basic_issue(raw: &RawIssue) -> (r: Option<AccessibilityIssue>)
    ensures
        r is Some <==> raw_is_complete(*raw),
        r matches Some(issue) ==> issue == issue_from_raw(*raw, issue.id) && uuid_is_v4(issue.id),
{
    let id = new_uuid();
    let type_ = match raw.issue_type {
        Some(t) => t,
        None => return None,
    };
    let rule_id = match &raw.rule_id {
        Some(x) => x.clone(),
        None => return None,
    };
    let rule_name = match &raw.rule_name {
        Some(x) => x.clone(),
        None => return None,
    };
    let description = match &raw.description {
        Some(x) => x.clone(),
        None => return None,
    };
    let help_url = match &raw.help_url {
        Some(x) => x.clone(),
        None => return None,
    };
    Some(
        AccessibilityIssue {
            id,
            type_,
            rule_id,
            rule_name,
            description,
            help_url,
            target: copy_opt_string(&raw.target),
            html_snippet: copy_opt_string(&raw.html),
            wcag_criterion: None,
            location: None,
        },
    )
}

/// At most this many reported violations are looked at, to keep results
/// small.
pub const BASIC_CHECK_LIMIT: usize = 50;

/// The complete violations of a list, in order.
pub open spec fn complete_raws(s: Seq<RawIssue>) -> Seq<RawIssue>
    decreases s.len(),
{
    if s.len() == 0 {
        Seq::empty()
    } else if raw_is_complete(s.last()) {
        complete_raws(s.drop_last()).push(s.last())
    } else {
        complete_raws(s.drop_last())
    }
}

/// The violations that basic checks keep: the complete ones among the
/// first `BASIC_CHECK_LIMIT` reported.
pub open spec fn kept_raws(s: Seq<RawIssue>) -> Seq<RawIssue> {
    complete_raws(
        s.take(
            if s.len() < BASIC_CHECK_LIMIT {
                s.len() as int
            } else {
                BASIC_CHECK_LIMIT as int
            },
        ),
    )
}

/// Turns the violations reported by the basic in-page checks into issues:
/// the complete ones among the first `BASIC_CHECK_LIMIT`, in order, each
/// with a fresh random id.
pub fn collect_basic_issues(raws: &Vec<RawIssue>) -> (r: Vec<AccessibilityIssue>)
    ensures
        r@.len() == kept_raws(raws@).len(),
        forall|j: int|
            0 <= j < r@.len() ==> #[trigger] r@[j] == issue_from_raw(kept_raws(raws@)[j], r@[j].id)
                && uuid_is_v4(r@[j].id),
{
    let limit: usize = if raws.len() < BASIC_CHECK_LIMIT {
        raws.len()
    } else {
        BASIC_CHECK_LIMIT
    };
    let mut r: Vec<AccessibilityIssue> = Vec::new();
    let mut i: usize = 0;
    while i < limit
        invariant
            i <= limit <= raws@.len(),
            limit == (if raws@.len() < BASIC_CHECK_LIMIT {
                raws@.len()
            } else {
                BASIC_CHECK_LIMIT as nat
            }),
            r@.len() == complete_raws(raws@.take(i as int)).len(),
            forall|j: int|
                0 <= j < r@.len() ==> #[trigger] r@[j] == issue_from_raw(
                    complete_raws(raws@.take(i as int))[j],
                    r@[j].id,
                ) && uuid_is_v4(r@[j].id),
        decreases limit - i,
    {
        assert(raws@.take(i + 1).drop_last() =~= raws@.take(i as int));
        if let Some(issue) = parse_basic_issue(&raws[i]) {
            r.push(issue);
        }
        i = i + 1;
    }
    r
}

/// Settings for launching the headless browser.
pub struct LaunchConfig {
    pub args: Vec<String>,
    pub headless: bool,
    pub sandbox: bool,
    pub pipe: bool,
    pub idle_timeout_secs: u64,
}

/// The command-line arguments the browser is launched with.
pub open spec fn launch_args(headless: bool) -> Seq<Seq<char>> {
    let base = seq![
        "--disable-gpu"@,
        "--no-sandbox"@,
        "--disable-setuid-sandbox"@,
        "--disable-dev-shm-usage"@,
    ];
    if headless {
        base.push("--headless=new"@)
    } else {
        base
    }
}

/// The launch settings built for the given flags: the arguments of
/// `launch_args`, the flags themselves, no pipe, and an idle timeout of 30
/// seconds.
pub open spec fn launch_config_for(c: LaunchConfig, headless: bool, sandbox: bool) -> bool {
    &&& c.args@.map_values(|a: String| a@) == launch_args(headless)
    &&& c.headless == headless
    &&& c.sandbox == sandbox
    &&& !c.pipe
    &&& c.idle_timeout_secs == 30
}

/// Builder for the browser's launch settings.
#[derive(Debug, Clone, Copy)]
pub struct LaunchOptionsBuilder {
    pub headless: bool,
    pub sandbox: bool,
}

impl LaunchOptionsBuilder {
    /// A builder with both headless mode and the sandbox on.
    pub fn default() -> (r: Self)
        ensures
            r.headless,
            r.sandbox,
    {
        Self { headless: true, sandbox: true }
    }

    /// Sets headless mode, keeping the other setting.
    pub fn headless(self, value: bool) -> (r: Self)
        ensures
            r.headless == value,
            r.sandbox == self.sandbox,
    {
        let mut s = self;
        s.headless = value;
        s
    }

    /// Sets the sandbox, keeping the other setting.
    pub fn sandbox(self, value: bool) -> (r: Self)
        ensures
            r.headless == self.headless,
            r.sandbox == value,
    {
        let mut s = self;
        s.sandbox = value;
        s
    }

    /// Builds the launch settings, through a fresh builder with the same
    /// flags.
    pub fn build(self) -> (r: LaunchConfig)
        ensures
            launch_config_for(r, self.headless, self.sandbox),
    {
        LaunchOptionsBuilder::default().headless(self.headless).sandbox(self.sandbox)._build()
    }

    /// Builds the launch settings from the flags.
    pub fn _build(self) -> (r: LaunchConfig)
        ensures
            launch_config_for(r, self.headless, self.sandbox),
    {
        let mut args: Vec<String> = Vec::new();
        args.push("--disable-gpu".to_owned());
        args.push("--no-sandbox".to_owned());
        args.push("--disable-setuid-sandbox".to_owned());
        args.push("--disable-dev-shm-usage".to_owned());
        if self.headless {
            args.push("--headless=new".to_owned());
        }
        let r = LaunchConfig {
            args,
            headless: self.headless,
            sandbox: self.sandbox,
            pipe: false,
            idle_timeout_secs: 30,
        };
        assert(r.args@.map_values(|a: String| a@) =~= launch_args(self.headless));
        r
    }
}

} // verus!
