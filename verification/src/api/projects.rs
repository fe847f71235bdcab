//! Request handling for projects: what each request of the projects API
//! answers and how it changes the storage.

use vstd::prelude::*;
use crate::bindings::{parse_uuid, spec_parse_uuid};
use crate::domain::errors::AppError;
use crate::domain::models::{AuditProject, CreateProjectRequest, ProjectView};
use crate::utils::validators::is_validation_failure;
use crate::services::storage::{
    not_found_message, not_found_text, project_from_request, updated_project, ProjectUpdates, Storage,
};

verus! {

/// The error for a path id that is not a UUID.
pub open spec fn invalid_uuid_text() -> Seq<char> {
    "Invalid UUID format"@
}

/// Reads a project id from the request path: a validation error where it
/// is not a UUID.
pub fn parse_project_id(id: &str) -> (r: Result<u128, AppError>)
    ensures
        spec_parse_uuid(id@) matches Some(k) ==> r == Ok::<u128, AppError>(k),
        spec_parse_uuid(id@) is None ==> (r matches Err(AppError::ValidationError(m)) && m@
            == invalid_uuid_text()),
{
    match parse_uuid(id) {
        Some(k) => Ok(k),
        None => Err(AppError::ValidationError("Invalid UUID format".to_owned())),
    }
}

/// Create a project from a request: a validation error where the request
/// is invalid; otherwise the project is created and returned.
pub fn create_project(storage: &mut Storage, request: CreateProjectRequest) -> (r: Result<
    AuditProject,
    AppError,
>)
    requires
        old(storage).wf(),
    ensures
        final(storage).wf(),
        request.name_is_valid() && request.target_url_is_valid() ==> (r matches Ok(p) && p@
            == project_from_request(p.id, request, p.created_at) && final(storage)@ == old(
            storage,
        )@.insert(p.id, p@)),
        !(request.name_is_valid() && request.target_url_is_valid()) ==> (r matches Err(e)
            && is_validation_failure(e) && final(storage)@ == old(storage)@),
{
    match request.validate() {
        Ok(()) => {},
        Err(e) => return Err(e),
    }
    match storage.create_project(request) {
        Ok(p) => Ok(p),
        Err(m) => Err(AppError::InternalError(m)),
    }
}

/// What `get_project` answers for the project id text `id` in a storage
/// holding `projects`.
pub open spec fn get_answer(
    projects: Map<u128, ProjectView>,
    id: Seq<char>,
    r: Result<AuditProject, AppError>,
) -> bool {
    match spec_parse_uuid(id) {
        None => r matches Err(AppError::ValidationError(m)) && m@ == invalid_uuid_text(),
        Some(k) => if projects.contains_key(k) {
            r matches Ok(p) && p@ == projects[k]
        } else {
            r matches Err(AppError::NotFound(m)) && m@ == not_found_text(k)
        },
    }
}

/// Get a project by the id in the request path: a validation error where
/// the id is not a UUID, not found where no such project is stored.
pub fn get_project(storage: &Storage, id: &str) -> (r: Result<AuditProject, AppError>)
    ensures
        get_answer(storage@, id@, r),
{
    let k = match parse_project_id(id) {
        Ok(k) => k,
        Err(e) => return Err(e),
    };
    match storage.get_project(k) {
        Some(p) => Ok(p),
        None => Err(AppError::NotFound(not_found_message(k))),
    }
}

/// Update the project named in the request path: a validation error where
/// the id is not a UUID, not found where no such project is stored;
/// otherwise the updated project.
pub fn update_project(storage: &mut Storage, id: &str, updates: ProjectUpdates) -> (r: Result<
    AuditProject,
    AppError,
>)
    requires
        old(storage).wf(),
    ensures
        final(storage).wf(),
        spec_parse_uuid(id@) is None ==> (r matches Err(AppError::ValidationError(m)) && m@
            == invalid_uuid_text() && final(storage)@ == old(storage)@),
        spec_parse_uuid(id@) matches Some(k) ==> (old(storage)@.contains_key(k) ==> (r matches Ok(
            p,
        ) && p@ == updated_project(old(storage)@[k], updates, p.updated_at) && final(storage)@
            == old(storage)@.insert(k, p@))),
        spec_parse_uuid(id@) matches Some(k) ==> (!old(storage)@.contains_key(k) ==> (r matches Err(
            AppError::NotFound(m),
        ) && m@ == not_found_text(k) && final(storage)@ == old(storage)@)),
{
    let k = match parse_project_id(id) {
        Ok(k) => k,
        Err(e) => return Err(e),
    };
    match storage.update_project(k, updates) {
        Ok(p) => Ok(p),
        Err(m) => Err(AppError::NotFound(m)),
    }
}

/// Delete the project named in the request path, with all its scans: a
/// validation error where the id is not a UUID, not found where no such
/// project is stored.
pub fn delete_project(storage: &mut Storage, id: &str) -> (r: Result<(), AppError>)
    requires
        old(storage).wf(),
    ensures
        final(storage).wf(),
        spec_parse_uuid(id@) is None ==> (r matches Err(AppError::ValidationError(m)) && m@
            == invalid_uuid_text() && final(storage)@ == old(storage)@),
        spec_parse_uuid(id@) matches Some(k) ==> (final(storage)@ == old(storage)@.remove(k) && (r
            is Ok <==> old(storage)@.contains_key(k))),
        spec_parse_uuid(id@) matches Some(k) ==> (!old(storage)@.contains_key(k) ==> (r matches Err(
            AppError::NotFound(m),
        ) && m@ == not_found_text(k))),
{
    let k = match parse_project_id(id) {
        Ok(k) => k,
        Err(e) => return Err(e),
    };
    match storage.delete_project(k) {
        Ok(()) => Ok(()),
        Err(m) => Err(AppError::NotFound(m)),
    }
}

} // verus!
