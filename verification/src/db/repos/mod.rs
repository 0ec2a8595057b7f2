use vstd::prelude::*;

pub mod core_repo;
pub mod flow_repo;
pub mod process_repo;
pub mod task_repo;
pub mod worker_repo;

verus! {

/// Errors of the database repositories.
#[derive(Debug)]
pub enum DbRepoError {
    NotFound,
    QueryError(String),
}

} // verus!
