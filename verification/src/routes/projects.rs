//! The answers of the project endpoints to what the store reported.
use vstd::prelude::*;
use vstd::string::*;

use crate::models::project::Project;

verus! {

/// The body of an error reply.
#[derive(Debug, Clone, PartialEq, Eq)]
pub struct ApiError {
    pub error: String,
}

/// A reply: the value on success, the status code and error body otherwise.
pub type ApiResult<T> = Result<T, (u16, ApiError)>;

/// The reply to a failure that the client cannot act on.
pub fn internal_err() -> (r: (u16, ApiError))
    ensures
        r.0 == 500,
        r.1.error@ == "Internal server error"@,
{
    (500, ApiError { error: "Internal server error".to_owned() })
}

/// The reply when no project has the identifier asked for.
pub fn project_not_found() -> (r: (u16, ApiError))
    ensures
        r.0 == 404,
        r.1.error@ == "Project not found"@,
{
    (404, ApiError { error: "Project not found".to_owned() })
}

/// Whether `r` is the reply to an internal failure.
pub open spec fn is_internal_err<T>(r: ApiResult<T>) -> bool {
    r matches Err(e) && e.0 == 500 && e.1.error@ == "Internal server error"@
}

/// Whether `r` is the reply to an unknown project.
pub open spec fn is_not_found<T>(r: ApiResult<T>) -> bool {
    r matches Err(e) && e.0 == 404 && e.1.error@ == "Project not found"@
}

/// The reply to a listing: the projects, or an internal error when the
/// store failed.
pub fn list_projects<E>(listed: Result<Vec<Project>, E>) -> (r: ApiResult<Vec<Project>>)
    ensures
        listed matches Ok(v) ==> r == Ok::<Vec<Project>, (u16, ApiError)>(v),
        listed is Err ==> is_internal_err(r),
{
    match listed {
        Ok(v) => Ok(v),
        Err(_) => Err(internal_err()),
    }
}

/// The reply to a lookup: the project when there is one, 404 when there is
/// none, an internal error when the store failed.
pub fn get_project<E>(found: Result<Option<Project>, E>) -> (r: ApiResult<Project>)
    ensures
        found matches Ok(Some(p)) ==> r == Ok::<Project, (u16, ApiError)>(p),
        found matches Ok(None) ==> is_not_found(r),
        found is Err ==> is_internal_err(r),
{
    match found {
        Ok(Some(p)) => Ok(p),
        Ok(None) => Err(project_not_found()),
        Err(_) => Err(internal_err()),
    }
}

/// The reply to a creation: 201 with the new project, or an internal error
/// when the store failed.
pub fn create_project<E>(created: Result<Project, E>) -> (r: ApiResult<(u16, Project)>)
    ensures
        created matches Ok(p) ==> r == Ok::<(u16, Project), (u16, ApiError)>((201, p)),
        created is Err ==> is_internal_err(r),
{
    match created {
        Ok(p) => Ok((201, p)),
        Err(_) => Err(internal_err()),
    }
}

/// The reply to a deletion: 204 when a project was removed, 404 when none
/// had the identifier, an internal error when the store failed.
pub fn delete_project<E>(deleted: Result<bool, E>) -> (r: ApiResult<u16>)
    ensures
        deleted == Ok::<bool, E>(true) ==> r == Ok::<u16, (u16, ApiError)>(204),
        deleted == Ok::<bool, E>(false) ==> is_not_found(r),
        deleted is Err ==> is_internal_err(r),
{
    match deleted {
        Ok(true) => Ok(204),
        Ok(false) => Err(project_not_found()),
        Err(_) => Err(internal_err()),
    }
}

} // verus!
