use vstd::prelude::*;
use crate::adapters::models::process::flow_element::{direction_of, FlowElementArgument};
use crate::adapters::models::worker::task_variable::TaskVariable;
use crate::db::models::data_type_db::DataTypeDb;
use crate::db::models::flow_db::FlowElementArgumentDb;
use crate::db::repos::flow_repo::{FlowRepo, SaveAction, SaveOutVariables};
use crate::db::repos::DbRepoError;
use crate::db::services::DbServiceError;
use crate::debug_text::{repo_error_debug_string, repo_error_debug_text};

verus! {

/// The arguments of flow elements and what elements produce.
#[derive(Debug, Clone, Copy, PartialEq, Eq, Structural)]
pub struct FlowDbService {
    repo: FlowRepo,
}

/// Whether `a` is the argument that the row pair describes.
pub open spec fn argument_of_rows(a: FlowElementArgument, row: FlowElementArgumentDb, dt: DataTypeDb) -> bool {
    &&& a.id == row.id
    &&& a.name@ == row.arg_name@
    &&& a.direction == direction_of(row.direction@)
    &&& a.data_type.id@ == dt.id@
    &&& a.data_type.name@ == dt.name@
    &&& a.data_type.handler@ == dt.handler@
    &&& a.is_required == row.is_required
}

impl FlowDbService {
    /// The repository that the service reads and writes through.
    pub closed spec fn repo(self) -> FlowRepo {
        self.repo
    }

    /// The service over its repository; it holds no other state.
    pub fn new() -> (r: FlowDbService)
        ensures
            r.repo() == FlowRepo,
    {
        FlowDbService { repo: FlowRepo::new() }
    }

    /// The element's arguments, from what the repository read; a repository
    /// error becomes a query error with its text.
    pub fn get_flow_item_arguments(&self, fetched: Result<Vec<(FlowElementArgumentDb, DataTypeDb)>, DbRepoError>) -> (r: Result<Vec<FlowElementArgument>, DbServiceError>)
        ensures
            fetched matches Ok(rows) ==> (r matches Ok(args) && args@.len() == rows@.len()
                && forall|i: int| 0 <= i < rows@.len() ==> #[trigger] argument_of_rows(args@[i], rows@[i].0, rows@[i].1)),
            fetched matches Err(e) ==> (r matches Err(DbServiceError::QueryError(t)) && t@ == repo_error_debug_text(e)),
    {
        match fetched {
            Ok(rows) => {
                let mut args: Vec<FlowElementArgument> = Vec::new();
                let mut i: usize = 0;
                while i < rows.len()
                    invariant
                        i <= rows@.len(),
                        args@.len() == i,
                        forall|j: int| 0 <= j < i ==> #[trigger] argument_of_rows(args@[j], rows@[j].0, rows@[j].1),
                    decreases rows@.len() - i,
                {
                    args.push(FlowElementArgument::from_db(&rows[i].0, &rows[i].1));
                    i = i + 1;
                }
                Ok(args)
            },
            Err(e) => Err(DbServiceError::QueryError(repo_error_debug_string(&e))),
        }
    }

    /// Starts storing the variables that an element produced.
    pub fn save_flow_item_out_variables(&self, task_id: u128, element_id: u128, arg_names: Vec<String>, task_variables: Vec<TaskVariable>) -> (r: (SaveOutVariables, SaveAction))
        ensures
            r.0.task_id == task_id,
            r.0.element_id == element_id,
            r.0.arg_names == arg_names,
            r.0.task_variables == task_variables,
            r.0.errors@.len() == 0,
            r.0.next == 0,
            r.0.wf(),
            r.0.continues(r.1),
    {
        self.repo.save_flow_item_out_variables(task_id, element_id, arg_names, task_variables)
    }
}

} // verus!
