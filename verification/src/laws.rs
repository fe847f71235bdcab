//! Properties of the library that relate several operations, each stated
//! over the specifications that the operations' own contracts use.

use vstd::prelude::*;
use crate::bindings::spec_parse_uuid;
use crate::api::projects::get_answer;
use crate::domain::errors::AppError;
use crate::domain::models::{
    AccessibilityIssue, AuditProject, CreateProjectRequest, IssueType, ProjectView, ScanView,
    Timestamp,
};
use crate::services::audit_service::{
    complete_raws, count_type, kept_raws, launch_config_for, lemma_count_type_bounded, lemma_counts_add_up,
    summary_of, LaunchConfig, RawIssue, BASIC_CHECK_LIMIT,
};
use crate::services::storage::{project_from_request, project_with_scan, updated_project, ProjectUpdates};
use crate::api::reports::{comparison_of, trend_fits, trend_of, ComparisonReport, IssueTrend};
use crate::api::audit::scan_recorded;
use crate::bindings::url_parse_error;
use crate::domain::models::AuditRequest;
use crate::services::audit_service::{issue_from_raw, raw_is_complete};

verus! {

/// A project is found, as it was created, right after `create_project`
/// stored it: `get_project` on its id returns it.
pub proof fn law_created_project_is_found(
    before: Map<u128, ProjectView>,
    after: Map<u128, ProjectView>,
    request: CreateProjectRequest,
    p: ProjectView,
)
    requires
        p == project_from_request(p.id, request, p.created_at),
        after == before.insert(p.id, p),
    ensures
        after.contains_key(p.id),
        after[p.id] == p,
        after[p.id].name == request.name,
        after[p.id].target_url == request.target_url,
        after[p.id].scans.len() == 0,
        after[p.id].created_at == after[p.id].updated_at,
{
}

/// Creating a project leaves every other project as it was, and adds one
/// project to the listing when its id was not taken.
pub proof fn law_create_keeps_others(
    before: Map<u128, ProjectView>,
    after: Map<u128, ProjectView>,
    p: ProjectView,
    other: u128,
)
    requires
        before.dom().finite(),
        after == before.insert(p.id, p),
    ensures
        other != p.id ==> (after.contains_key(other) == before.contains_key(other) && (
        before.contains_key(other) ==> after[other] == before[other])),
        !before.contains_key(p.id) ==> after.dom().len() == before.dom().len() + 1,
{
}

/// After a project is deleted it is no longer found, and deleting it again
/// fails.
pub proof fn law_deleted_project_is_gone(
    before: Map<u128, ProjectView>,
    after: Map<u128, ProjectView>,
    id: u128,
)
    requires
        after == before.remove(id),
    ensures
        !after.contains_key(id),
        after.remove(id) == after,
        forall|k: u128| k != id ==> (#[trigger] after.contains_key(k) == before.contains_key(k)),
{
    assert(after.remove(id) =~= after);
}

/// A scan added to a project becomes its latest scan, and the project's
/// reports are its earlier reports followed by the new scan; its identity,
/// name, description, target and creation time stay.
pub proof fn law_added_scan_is_latest(
    before: Map<u128, ProjectView>,
    after: Map<u128, ProjectView>,
    id: u128,
    scan: ScanView,
    at: Timestamp,
)
    requires
        before.contains_key(id),
        after == before.insert(id, project_with_scan(before[id], scan, at)),
    ensures
        after.contains_key(id),
        after[id].scans.len() > 0,
        after[id].scans.last() == scan,
        after[id].scans == before[id].scans.push(scan),
        after[id].id == before[id].id,
        after[id].name == before[id].name,
        after[id].description == before[id].description,
        after[id].target_url == before[id].target_url,
        after[id].created_at == before[id].created_at,
{
}

/// An update replaces exactly the fields it carries and keeps the
/// project's id, scans and creation time.
pub proof fn law_update_keeps_identity_and_scans(p: ProjectView, updates: ProjectUpdates, at: Timestamp)
    ensures
        updated_project(p, updates, at).id == p.id,
        updated_project(p, updates, at).scans == p.scans,
        updated_project(p, updates, at).created_at == p.created_at,
        updated_project(p, updates, at).updated_at == at,
        updates.name is None ==> updated_project(p, updates, at).name == p.name,
        updates.description is None ==> updated_project(p, updates, at).description == p.description,
        updates.target_url is None ==> updated_project(p, updates, at).target_url == p.target_url,
{
}

/// The WCAG levels are nested: a page that passes AAA passes AA, and one
/// that passes AA passes A. AAA passes exactly when no issue was found of
/// any type.
pub proof fn law_compliance_levels_nested(issues: Seq<AccessibilityIssue>)
    requires
        issues.len() <= usize::MAX,
    ensures
        summary_of(issues).wcag_level_aaa_pass ==> summary_of(issues).wcag_level_aa_pass,
        summary_of(issues).wcag_level_aa_pass ==> summary_of(issues).wcag_level_a_pass,
        summary_of(issues).wcag_level_aaa_pass <==> (summary_of(issues).critical_count == 0
            && summary_of(issues).serious_count == 0 && summary_of(issues).moderate_count == 0
            && summary_of(issues).minor_count == 0),
{
    lemma_counts_add_up(issues);
    lemma_count_type_bounded(issues, IssueType::Critical);
    lemma_count_type_bounded(issues, IssueType::Serious);
    lemma_count_type_bounded(issues, IssueType::Moderate);
    lemma_count_type_bounded(issues, IssueType::Minor);
}

/// With a single scan there is nothing to compare with: the trend is zero.
pub proof fn law_single_scan_has_no_trend(scans: Seq<ScanView>)
    requires
        scans.len() == 1,
    ensures
        trend_of(scans) == (IssueTrend { total_change: 0, critical_change: 0, serious_change: 0 }),
{
}

/// `build` and `_build` give the same launch settings for the same flags.
pub proof fn law_build_agrees_with_inner_build(
    a: LaunchConfig,
    b: LaunchConfig,
    headless: bool,
    sandbox: bool,
)
    requires
        launch_config_for(a, headless, sandbox),
        launch_config_for(b, headless, sandbox),
    ensures
        a.args@.map_values(|s: String| s@) == b.args@.map_values(|s: String| s@),
        a.headless == b.headless,
        a.sandbox == b.sandbox,
        a.pipe == b.pipe,
        a.idle_timeout_secs == b.idle_timeout_secs,
{
}

/// Dropping incomplete violations never adds any.
pub proof fn lemma_complete_raws_shorter(s: Seq<RawIssue>)
    ensures
        complete_raws(s).len() <= s.len(),
    decreases s.len(),
{
    if s.len() > 0 {
        lemma_complete_raws_shorter(s.drop_last());
    }
}

/// Basic checks keep at most `BASIC_CHECK_LIMIT` issues.
pub proof fn law_basic_checks_are_bounded(s: Seq<RawIssue>)
    ensures
        kept_raws(s).len() <= BASIC_CHECK_LIMIT,
{
    let n = if s.len() < BASIC_CHECK_LIMIT {
        s.len() as int
    } else {
        BASIC_CHECK_LIMIT as int
    };
    lemma_complete_raws_shorter(s.take(n));
}

/// `GET /projects/{id}` with the printed id of a project just created finds
/// that project: the printed id (`uuid_text` of the id, which parses back to
/// it) is answered with the project as it was created.
pub proof fn law_created_project_found_by_printed_id(
    before: Map<u128, ProjectView>,
    after: Map<u128, ProjectView>,
    request: CreateProjectRequest,
    p: ProjectView,
    text: Seq<char>,
    r: Result<AuditProject, AppError>,
)
    requires
        p == project_from_request(p.id, request, p.created_at),
        after == before.insert(p.id, p),
        spec_parse_uuid(text) == Some(p.id),
        get_answer(after, text, r),
    ensures
        r matches Ok(q) && q@ == p,
{
}

/// The issues of two lists joined are counted as the issues of each.
pub proof fn lemma_count_concat(a: Seq<AccessibilityIssue>, b: Seq<AccessibilityIssue>, t: IssueType)
    ensures
        count_type(a + b, t) == count_type(a, t) + count_type(b, t),
    decreases b.len(),
{
    if b.len() == 0 {
        assert(a + b =~= a);
    } else {
        assert((a + b).drop_last() =~= a + b.drop_last());
        lemma_count_concat(a, b.drop_last(), t);
    }
}

/// Taking one issue out of a list lowers the count of its type by one.
pub proof fn lemma_count_remove(s: Seq<AccessibilityIssue>, i: int, t: IssueType)
    requires
        0 <= i < s.len(),
    ensures
        count_type(s, t) == count_type(s.remove(i), t) + (if s[i].type_ == t {
            1int
        } else {
            0int
        }),
{
    let left = s.subrange(0, i);
    let right = s.subrange(i + 1, s.len() as int);
    assert(s =~= left + seq![s[i]] + right);
    assert(s.remove(i) =~= left + right);
    lemma_count_concat(left + seq![s[i]], right, t);
    lemma_count_concat(left, seq![s[i]], t);
    lemma_count_concat(left, right, t);
    let one = seq![s[i]];
    assert(one.drop_last() =~= Seq::<AccessibilityIssue>::empty());
    assert(count_type(one.drop_last(), t) == 0);
    assert(one.last() == s[i]);
    assert(count_type(one, t) == (if s[i].type_ == t {
        1nat
    } else {
        0nat
    }));
}

/// Two lists that hold the same issues, in any order, have the same count
/// of each type.
pub proof fn lemma_count_permutation(a: Seq<AccessibilityIssue>, b: Seq<AccessibilityIssue>, t: IssueType)
    requires
        a.to_multiset() == b.to_multiset(),
    ensures
        count_type(a, t) == count_type(b, t),
    decreases a.len(),
{
    broadcast use vstd::seq_lib::group_to_multiset_ensures;

    if a.len() == 0 {
        assert(a.to_multiset().len() == 0);
        assert(b.to_multiset().len() == b.len());
        assert(b =~= Seq::<AccessibilityIssue>::empty());
    } else {
        let x = a.last();
        let rest = a.drop_last();
        assert(a =~= rest.push(x));
        assert(a.to_multiset().count(x) > 0);
        assert(b.to_multiset().count(x) > 0);
        assert(b.contains(x));
        let j = choose|j: int| 0 <= j < b.len() && b[j] == x;
        assert(b.remove(j).to_multiset() =~= b.to_multiset().remove(x));
        assert(rest.to_multiset() =~= a.to_multiset().remove(x));
        lemma_count_permutation(rest, b.remove(j), t);
        lemma_count_remove(b, j, t);
    }
}

/// The summary of two lists of issues joined: each count is the sum of the
/// two lists' counts, and a level passes exactly when it passes for both.
pub proof fn law_summary_of_joined_lists(a: Seq<AccessibilityIssue>, b: Seq<AccessibilityIssue>)
    requires
        a.len() + b.len() <= usize::MAX,
    ensures
        summary_of(a + b).total_issues == summary_of(a).total_issues + summary_of(b).total_issues,
        summary_of(a + b).critical_count == summary_of(a).critical_count + summary_of(
            b,
        ).critical_count,
        summary_of(a + b).serious_count == summary_of(a).serious_count + summary_of(
            b,
        ).serious_count,
        summary_of(a + b).moderate_count == summary_of(a).moderate_count + summary_of(
            b,
        ).moderate_count,
        summary_of(a + b).minor_count == summary_of(a).minor_count + summary_of(b).minor_count,
        summary_of(a + b).wcag_level_a_pass == (summary_of(a).wcag_level_a_pass && summary_of(
            b,
        ).wcag_level_a_pass),
        summary_of(a + b).wcag_level_aa_pass == (summary_of(a).wcag_level_aa_pass && summary_of(
            b,
        ).wcag_level_aa_pass),
        summary_of(a + b).wcag_level_aaa_pass == (summary_of(a).wcag_level_aaa_pass && summary_of(
            b,
        ).wcag_level_aaa_pass),
{
    lemma_count_concat(a, b, IssueType::Critical);
    lemma_count_concat(a, b, IssueType::Serious);
    lemma_count_concat(a, b, IssueType::Moderate);
    lemma_count_concat(a, b, IssueType::Minor);
    lemma_count_type_bounded(a, IssueType::Critical);
    lemma_count_type_bounded(a, IssueType::Serious);
    lemma_count_type_bounded(a, IssueType::Moderate);
    lemma_count_type_bounded(a, IssueType::Minor);
    lemma_count_type_bounded(b, IssueType::Critical);
    lemma_count_type_bounded(b, IssueType::Serious);
    lemma_count_type_bounded(b, IssueType::Moderate);
    lemma_count_type_bounded(b, IssueType::Minor);
}

/// The summary does not depend on the order of the issues.
pub proof fn law_summary_ignores_order(a: Seq<AccessibilityIssue>, b: Seq<AccessibilityIssue>)
    requires
        a.to_multiset() == b.to_multiset(),
    ensures
        summary_of(a) == summary_of(b),
{
    broadcast use vstd::seq_lib::group_to_multiset_ensures;

    assert(a.len() == a.to_multiset().len());
    assert(b.len() == b.to_multiset().len());
    lemma_count_permutation(a, b, IssueType::Critical);
    lemma_count_permutation(a, b, IssueType::Serious);
    lemma_count_permutation(a, b, IssueType::Moderate);
    lemma_count_permutation(a, b, IssueType::Minor);
}

/// The project `id` keeps its scans from `before` to `after`.
pub open spec fn keeps_scans_of(
    before: Map<u128, ProjectView>,
    after: Map<u128, ProjectView>,
    id: u128,
) -> bool {
    before.contains_key(id) ==> after.contains_key(id) && after[id].scans == before[id].scans
}

/// Which operations keep the scans of project `id`: creating a project under
/// another id, updating any project, adding a scan to another project, and
/// deleting another project; failed operations change nothing.
pub proof fn law_other_operations_keep_scans(
    before: Map<u128, ProjectView>,
    id: u128,
    created: ProjectView,
    updated: u128,
    updates: ProjectUpdates,
    other: u128,
    scan: ScanView,
    at: Timestamp,
)
    requires
        created.id != id,
        other != id,
    ensures
        keeps_scans_of(before, before.insert(created.id, created), id),
        before.contains_key(updated) ==> keeps_scans_of(
            before,
            before.insert(updated, updated_project(before[updated], updates, at)),
            id,
        ),
        before.contains_key(other) ==> keeps_scans_of(
            before,
            before.insert(other, project_with_scan(before[other], scan, at)),
            id,
        ),
        keeps_scans_of(before, before.remove(other), id),
        keeps_scans_of(before, before, id),
{
}

/// Keeping the scans of a project through each step keeps them through the
/// whole run of steps.
pub proof fn law_scans_kept_through_steps(states: Seq<Map<u128, ProjectView>>, id: u128)
    requires
        states.len() >= 1,
        forall|i: int| 0 <= i < states.len() - 1 ==> keeps_scans_of(#[trigger] states[i], states[i + 1], id),
    ensures
        keeps_scans_of(states[0], states.last(), id),
    decreases states.len(),
{
    if states.len() > 1 {
        let shorter = states.drop_last();
        assert forall|i: int| 0 <= i < shorter.len() - 1 implies keeps_scans_of(
            #[trigger] shorter[i],
            shorter[i + 1],
            id,
        ) by {
            assert(keeps_scans_of(states[i], states[i + 1], id));
        }
        law_scans_kept_through_steps(shorter, id);
        assert(keeps_scans_of(states[states.len() - 2], states[states.len() - 1], id));
    }
}

/// After a scan is added to a project, and any run of steps that keep that
/// project's scans, the scan is still the project's latest (what
/// `get_latest_scan` returns).
pub proof fn law_latest_scan_after_later_steps(
    states: Seq<Map<u128, ProjectView>>,
    before: Map<u128, ProjectView>,
    id: u128,
    scan: ScanView,
    at: Timestamp,
)
    requires
        before.contains_key(id),
        states.len() >= 1,
        states[0] == before.insert(id, project_with_scan(before[id], scan, at)),
        forall|i: int| 0 <= i < states.len() - 1 ==> keeps_scans_of(#[trigger] states[i], states[i + 1], id),
    ensures
        states.last().contains_key(id),
        states.last()[id].scans.len() > 0,
        states.last()[id].scans.last() == scan,
{
    law_scans_kept_through_steps(states, id);
}

/// The comparison of a project's scans reports, for every scan in order,
/// that scan's own time, issue total and WCAG results; its latest and
/// previous scans are the last two scans; and its trend is the latest scan's
/// counts minus the previous scan's (none with a single scan).
pub proof fn law_comparison_reports_each_scan(c: ComparisonReport, scans: Seq<ScanView>)
    requires
        scans.len() >= 1,
        trend_fits(scans),
        comparison_of(c, scans),
    ensures
        c.total_scans == scans.len(),
        c.compliance_history@.len() == scans.len(),
        forall|i: int|
            0 <= i < scans.len() ==> {
                &&& (#[trigger] c.compliance_history@[i]).timestamp == scans[i].timestamp
                &&& c.compliance_history@[i].level_a_pass == scans[i].summary.wcag_level_a_pass
                &&& c.compliance_history@[i].level_aa_pass == scans[i].summary.wcag_level_aa_pass
                &&& c.compliance_history@[i].level_aaa_pass == scans[i].summary.wcag_level_aaa_pass
                &&& c.compliance_history@[i].total_issues == scans[i].summary.total_issues
            },
        c.latest_scan@ == scans[scans.len() - 1],
        scans.len() >= 2 ==> (c.previous_scan matches Some(p) && p@ == scans[scans.len() - 2]),
        scans.len() == 1 ==> c.previous_scan is None,
        scans.len() >= 2 ==> {
            let latest = scans[scans.len() - 1].summary;
            let previous = scans[scans.len() - 2].summary;
            &&& c.issue_trend.total_change == (latest.total_issues as i32) - (
            previous.total_issues as i32)
            &&& c.issue_trend.critical_change == (latest.critical_count as i32) - (
            previous.critical_count as i32)
            &&& c.issue_trend.serious_change == (latest.serious_count as i32) - (
            previous.serious_count as i32)
        },
        scans.len() == 1 ==> c.issue_trend.total_change == 0 && c.issue_trend.critical_change == 0
            && c.issue_trend.serious_change == 0,
{
    assert forall|i: int| 0 <= i < scans.len() implies {
        &&& (#[trigger] c.compliance_history@[i]).timestamp == scans[i].timestamp
        &&& c.compliance_history@[i].level_a_pass == scans[i].summary.wcag_level_a_pass
        &&& c.compliance_history@[i].level_aa_pass == scans[i].summary.wcag_level_aa_pass
        &&& c.compliance_history@[i].level_aaa_pass == scans[i].summary.wcag_level_aaa_pass
        &&& c.compliance_history@[i].total_issues == scans[i].summary.total_issues
    } by {
        assert(c.compliance_history@[i] == scans.map_values(
            |s: ScanView| crate::api::reports::snapshot_of(s),
        )[i]);
    }
}

/// A parsed issue carries the reported fields unchanged: its type, rule id,
/// rule name, description and help URL are the reported ones, its target and
/// HTML snippet are the reported `target` and `html`, and it has no WCAG
/// criterion or page location.
pub proof fn law_parsed_issue_keeps_reported_fields(raw: RawIssue, issue: AccessibilityIssue)
    requires
        issue == issue_from_raw(raw, issue.id),
    ensures
        issue.type_ == raw.issue_type->0,
        issue.rule_id == raw.rule_id->0,
        issue.rule_name == raw.rule_name->0,
        issue.description == raw.description->0,
        issue.help_url == raw.help_url->0,
        issue.target == raw.target,
        issue.html_snippet == raw.html,
        issue.wcag_criterion is None,
        issue.location is None,
{
}

/// A reported violation becomes an issue exactly when its type, rule id,
/// rule name, description and help URL are all present; the target and HTML
/// may be missing.
pub proof fn law_complete_means_required_fields_present(raw: RawIssue)
    ensures
        raw_is_complete(raw) <==> (raw.issue_type is Some && raw.rule_id is Some
            && raw.rule_name is Some && raw.description is Some && raw.help_url is Some),
{
}

/// The violations kept from a list are complete ones, each taken from the
/// list in order; where every violation is complete, all are kept.
pub proof fn law_complete_raws_are_the_complete_ones(s: Seq<RawIssue>)
    ensures
        forall|i: int| 0 <= i < complete_raws(s).len() ==> raw_is_complete(
            #[trigger] complete_raws(s)[i],
        ) && s.contains(complete_raws(s)[i]),
        (forall|i: int| 0 <= i < s.len() ==> raw_is_complete(#[trigger] s[i])) ==> complete_raws(
            s,
        ) == s,
    decreases s.len(),
{
    if s.len() > 0 {
        let rest = s.drop_last();
        law_complete_raws_are_the_complete_ones(rest);
        assert forall|i: int| 0 <= i < complete_raws(s).len() implies raw_is_complete(
            #[trigger] complete_raws(s)[i],
        ) && s.contains(complete_raws(s)[i]) by {
            if i < complete_raws(rest).len() {
                let j = choose|j: int| 0 <= j < rest.len() && rest[j] == complete_raws(rest)[i];
                assert(s[j] == rest[j]);
            } else {
                assert(s[s.len() - 1] == s.last());
            }
        }
        if forall|i: int| 0 <= i < s.len() ==> raw_is_complete(#[trigger] s[i]) {
            assert forall|i: int| 0 <= i < rest.len() implies raw_is_complete(#[trigger] rest[i]) by {
                assert(s[i] == rest[i]);
            }
            assert(raw_is_complete(s[s.len() - 1]));
            assert(s =~= rest.push(s.last()));
        }
    } else {
        assert(s =~= Seq::<RawIssue>::empty());
    }
}

/// An update sets each field it carries, whatever else it carries, keeps
/// each field it leaves out, keeps the project's id, scans and creation
/// time, and marks the project updated at the update's time.
pub proof fn law_update_sets_each_given_field(
    p: ProjectView,
    updates: ProjectUpdates,
    at: Timestamp,
    q: ProjectView,
)
    requires
        q == updated_project(p, updates, at),
    ensures
        updates.name matches Some(n) ==> q.name == n,
        updates.name is None ==> q.name == p.name,
        updates.description matches Some(d) ==> q.description == d,
        updates.description is None ==> q.description == p.description,
        updates.target_url matches Some(u) ==> q.target_url == u,
        updates.target_url is None ==> q.target_url == p.target_url,
        q.id == p.id,
        q.scans == p.scans,
        q.created_at == p.created_at,
        q.updated_at == at,
{
}

/// A creation request is accepted exactly when the name has between 1 and
/// 200 characters and the target URL parses, whatever its scheme; an audit
/// request exactly when its URL parses.
pub proof fn law_validation_accepts_exactly_parsing_urls(
    request: CreateProjectRequest,
    audit: AuditRequest,
)
    ensures
        request.target_url_is_valid() <==> url_parse_error(request.target_url@) is None,
        request.name_is_valid() <==> 1 <= request.name@.len() <= 200,
        audit.is_valid() <==> url_parse_error(audit.url@) is None,
{
}

/// A successful audit that names a stored project adds exactly its result to
/// that project's scans, once, after the earlier ones; the project's other
/// fields, and every other project, stay as they were.
pub proof fn law_recorded_audit_adds_one_scan(
    before: Map<u128, ProjectView>,
    after: Map<u128, ProjectView>,
    pid: u128,
    scan: ScanView,
)
    requires
        before.contains_key(pid),
        scan_recorded(before, after, Some(pid), scan),
    ensures
        after.contains_key(pid),
        after[pid].scans == before[pid].scans.push(scan),
        after[pid].scans.len() == before[pid].scans.len() + 1,
        after[pid].id == before[pid].id,
        after[pid].name == before[pid].name,
        after[pid].description == before[pid].description,
        after[pid].target_url == before[pid].target_url,
        after[pid].created_at == before[pid].created_at,
        after.dom() == before.dom(),
        forall|k: u128| k != pid && before.contains_key(k) ==> #[trigger] after[k] == before[k],
{
    let at = choose|at: Timestamp|
        after == before.insert(pid, #[trigger] project_with_scan(before[pid], scan, at));
    assert(after == before.insert(pid, project_with_scan(before[pid], scan, at)));
    assert(after.dom() =~= before.dom());
}

/// An audit that names no project, or one that is not stored, changes
/// nothing.
pub proof fn law_unrecorded_audit_changes_nothing(
    before: Map<u128, ProjectView>,
    after: Map<u128, ProjectView>,
    project_id: Option<u128>,
    scan: ScanView,
)
    requires
        scan_recorded(before, after, project_id, scan),
        match project_id {
            Some(pid) => !before.contains_key(pid),
            None => true,
        },
    ensures
        after == before,
{
}

/// The WCAG levels of a summary say which kinds of issue were found: A
/// passes exactly when no issue is critical or serious, AA exactly when
/// moreover none is moderate, and AAA exactly when there is no issue; the
/// total is the number of issues.
pub proof fn law_summary_levels_follow_issue_types(s: Seq<AccessibilityIssue>)
    requires
        s.len() <= usize::MAX,
    ensures
        summary_of(s).total_issues == s.len(),
        summary_of(s).wcag_level_a_pass <==> (forall|i: int|
            0 <= i < s.len() ==> #[trigger] s[i].type_ != IssueType::Critical && s[i].type_
                != IssueType::Serious),
        summary_of(s).wcag_level_aa_pass <==> (forall|i: int|
            0 <= i < s.len() ==> #[trigger] s[i].type_ != IssueType::Critical && s[i].type_
                != IssueType::Serious && s[i].type_ != IssueType::Moderate),
        summary_of(s).wcag_level_aaa_pass <==> s.len() == 0,
{
    lemma_count_zero_iff_absent(s, IssueType::Critical);
    lemma_count_zero_iff_absent(s, IssueType::Serious);
    lemma_count_zero_iff_absent(s, IssueType::Moderate);
    lemma_count_type_bounded(s, IssueType::Critical);
    lemma_count_type_bounded(s, IssueType::Serious);
    lemma_count_type_bounded(s, IssueType::Moderate);
}

/// No issue of a type is counted exactly when no issue has that type; and
/// each issue of the type adds one to its count.
pub proof fn lemma_count_zero_iff_absent(s: Seq<AccessibilityIssue>, t: IssueType)
    ensures
        count_type(s, t) == 0 <==> (forall|i: int| 0 <= i < s.len() ==> #[trigger] s[i].type_ != t),
    decreases s.len(),
{
    if s.len() > 0 {
        let rest = s.drop_last();
        lemma_count_zero_iff_absent(rest, t);
        if count_type(s, t) == 0 {
            assert forall|i: int| 0 <= i < s.len() implies #[trigger] s[i].type_ != t by {
                if i < rest.len() {
                    assert(s[i] == rest[i]);
                    assert(rest[i].type_ != t);
                }
            }
        } else {
            if s.last().type_ != t {
                let j = choose|j: int| 0 <= j < rest.len() && #[trigger] rest[j].type_ == t;
                assert(s[j] == rest[j]);
            } else {
                assert(s[s.len() - 1].type_ == t);
            }
        }
    }
}

/// The answer to `GET /projects/{id}` where the id names a stored project is
/// that project.
pub proof fn law_get_finds_stored_project(
    projects: Map<u128, ProjectView>,
    text: Seq<char>,
    k: u128,
    r: Result<AuditProject, AppError>,
)
    requires
        spec_parse_uuid(text) == Some(k),
        projects.contains_key(k),
        get_answer(projects, text, r),
    ensures
        r matches Ok(p) && p@ == projects[k] && p.id == projects[k].id && p.name == projects[k].name,
{
}

} // verus!
