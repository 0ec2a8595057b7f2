use vstd::prelude::*;
use crate::adapters::models::process::flow_element::FlowElement;
use crate::adapters::models::process::flow_route::FlowRoute;
use crate::adapters::models::process::process_flow::ProcessFlow;
use crate::db::repos::process_repo::ProcessRepo;
use crate::db::repos::DbRepoError;
use crate::db::services::DbServiceError;
use crate::debug_text::{repo_error_debug_string, repo_error_debug_text};

verus! {

/// Processes, their flows, elements and routes.
#[derive(Debug, Clone, Copy, PartialEq, Eq, Structural)]
pub struct ProcessDbService {
    repo: ProcessRepo,
}

fn to_service_error(e: DbRepoError) -> (r: DbServiceError)
    ensures
        r matches DbServiceError::QueryError(t) && t@ == repo_error_debug_text(e),
{
    DbServiceError::QueryError(repo_error_debug_string(&e))
}

impl ProcessDbService {
    /// The repository that the service reads and writes through.
    pub closed spec fn repo(self) -> ProcessRepo {
        self.repo
    }

    /// The service over its repository; it holds no other state.
    pub fn new() -> (r: ProcessDbService)
        ensures
            r.repo() == ProcessRepo,
    {
        ProcessDbService { repo: ProcessRepo::new() }
    }

    /// The newest version of the process, or the repository's error as a
    /// query error.
    pub fn find_process_flow(&self, found: Result<ProcessFlow, DbRepoError>) -> (r: Result<ProcessFlow, DbServiceError>)
        ensures
            found matches Ok(f) ==> r == Ok::<ProcessFlow, DbServiceError>(f),
            found matches Err(e) ==> (r matches Err(DbServiceError::QueryError(t)) && t@ == repo_error_debug_text(e)),
    {
        match found {
            Ok(flow) => Ok(flow),
            Err(e) => Err(to_service_error(e)),
        }
    }

    /// The flow's starting element, or the repository's error as a query
    /// error.
    pub fn find_starting_element(&self, found: Result<FlowElement, DbRepoError>) -> (r: Result<FlowElement, DbServiceError>)
        ensures
            found matches Ok(f) ==> r == Ok::<FlowElement, DbServiceError>(f),
            found matches Err(e) ==> (r matches Err(DbServiceError::QueryError(t)) && t@ == repo_error_debug_text(e)),
    {
        match found {
            Ok(element) => Ok(element),
            Err(e) => Err(to_service_error(e)),
        }
    }

    /// A flow element, or the repository's error as a query error.
    pub fn get_flow_element(&self, found: Result<FlowElement, DbRepoError>) -> (r: Result<FlowElement, DbServiceError>)
        ensures
            found matches Ok(f) ==> r == Ok::<FlowElement, DbServiceError>(f),
            found matches Err(e) ==> (r matches Err(DbServiceError::QueryError(t)) && t@ == repo_error_debug_text(e)),
    {
        match found {
            Ok(element) => Ok(element),
            Err(e) => Err(to_service_error(e)),
        }
    }

    /// The routes out of an element, or the repository's error as a query
    /// error.
    pub fn get_out_routes(&self, found: Result<Vec<FlowRoute>, DbRepoError>) -> (r: Result<Vec<FlowRoute>, DbServiceError>)
        ensures
            found matches Ok(f) ==> r == Ok::<Vec<FlowRoute>, DbServiceError>(f),
            found matches Err(e) ==> (r matches Err(DbServiceError::QueryError(t)) && t@ == repo_error_debug_text(e)),
    {
        match found {
            Ok(routes) => Ok(routes),
            Err(e) => Err(to_service_error(e)),
        }
    }
}

} // verus!
