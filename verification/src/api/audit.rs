//! Request handling for audits: what an audit request answers once the
//! browser has run, and where its result is kept.

use vstd::prelude::*;
use crate::domain::errors::AppError;
use crate::domain::models::{AuditRequest, AuditResponse, PageAuditResult, ProjectView, ScanView, Timestamp};
use crate::services::storage::{project_with_scan, Storage};
use crate::utils::validators::concat2;

verus! {

/// The storage `after` is `before` with the scan added to the project
/// `project_id` at some time, where that project is stored; otherwise it is
/// `before`.
pub open spec fn scan_recorded(
    before: Map<u128, ProjectView>,
    after: Map<u128, ProjectView>,
    project_id: Option<u128>,
    scan: ScanView,
) -> bool {
    match project_id {
        Some(pid) => if before.contains_key(pid) {
            exists|at: Timestamp|
                after == before.insert(pid, #[trigger] project_with_scan(before[pid], scan, at))
        } else {
            after == before
        },
        None => after == before,
    }
}

/// Answers an audit request once the audit has run. A successful audit is
/// answered with its result and, where the request names a stored project,
/// added to that project's scans; a project that is not stored is left
/// alone. A failed audit is answered with `Audit failed: ` and the error's
/// message, and nothing is stored.
pub fn record_audit_outcome(
    storage: &mut Storage,
    request: &AuditRequest,
    outcome: Result<PageAuditResult, AppError>,
) -> (r: AuditResponse)
    requires
        old(storage).wf(),
    ensures
        final(storage).wf(),
        outcome matches Ok(res) ==> {
            &&& r.success
            &&& r.result matches Some(x) && x@ == res@
            &&& r.error is None
            &&& scan_recorded(old(storage)@, final(storage)@, request.project_id, res@)
        },
        outcome matches Err(e) ==> {
            &&& !r.success
            &&& r.result is None
            &&& r.error matches Some(m) && m@ == "Audit failed: "@ + e.spec_message()@
            &&& final(storage)@ == old(storage)@
        },
{
    match outcome {
        Ok(result) => {
            if let Some(project_id) = request.project_id {
                let _ = storage.add_scan(project_id, result.clone());
            }
            AuditResponse { success: true, result: Some(result), error: None }
        },
        Err(e) => {
            let m = e.message();
            AuditResponse {
                success: false,
                result: None,
                error: Some(concat2("Audit failed: ", m.as_str())),
            }
        },
    }
}

} // verus!
