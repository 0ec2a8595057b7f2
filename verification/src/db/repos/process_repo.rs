use vstd::prelude::*;
use crate::adapters::models::process::flow_element::FlowElement;
use crate::adapters::models::process::flow_route::FlowRoute;
use crate::adapters::models::process::process_flow::ProcessFlow;
use crate::db::models::handlers_db::HandlerTypeDb;
use crate::db::models::process_db::{FlowElementDb, FlowRouteDb, ProcessDefinitionDb, ProcessDefinitionFlowDb};
use crate::db::repos::DbRepoError;

verus! {

/// Reads processes, their flows, elements and routes.
#[derive(Debug, Clone, Copy, PartialEq, Eq, Structural)]
pub struct ProcessRepo;

/// Whether `e` is the element that a `pc_process_flow_element` row and its
/// handler row describe.
pub open spec fn element_of_rows(e: FlowElement, row: FlowElementDb, handler: HandlerTypeDb) -> bool {
    &&& e.id == row.id
    &&& e.el_type@ == row.el_type@
    &&& e.handler_type.name@ == handler.name@
    &&& e.handler_value@ == row.handler_value@
    &&& e.description@ == match row.description {
        Some(d) => d@,
        None => Seq::<char>::empty(),
    }
}

fn prefixed(prefix: &str, text: String) -> (r: String)
    ensures
        r@ == prefix@ + text@,
{
    let mut message = String::from_str(prefix);
    message.append(text.as_str());
    message
}

impl ProcessRepo {
    pub fn new() -> (r: ProcessRepo)
        ensures
            r == ProcessRepo,
    {
        ProcessRepo
    }

    /// The newest version of a process, from the rows that the query gave
    /// (newest first): not found when there is none.
    pub fn find_flow(&self, rows: Result<Vec<(ProcessDefinitionDb, ProcessDefinitionFlowDb)>, String>) -> (r: Result<ProcessFlow, DbRepoError>)
        ensures
            rows matches Ok(v) ==> (v@.len() > 0 ==> (r matches Ok(f) && f.id == v@[0].1.id && f.name@ == v@[0].0.name@
                && f.enabled == v@[0].0.enabled && f.version_id == v@[0].1.version_id)),
            rows matches Ok(v) ==> v@.len() == 0 ==> r matches Err(DbRepoError::NotFound),
            rows matches Err(text) ==> (r matches Err(DbRepoError::QueryError(m)) && m@ == "Error fetching flow: "@ + text@),
    {
        match rows {
            Ok(mut found) => {
                if found.len() == 0 {
                    Err(DbRepoError::NotFound)
                } else {
                    let (ppd, ppdf) = found.remove(0);
                    Ok(ProcessFlow { id: ppdf.id, name: ppd.name, enabled: ppd.enabled, version_id: ppdf.version_id })
                }
            },
            Err(text) => Err(DbRepoError::QueryError(prefixed("Error fetching flow: ", text))),
        }
    }

    /// The flow element of the first row that the query gave: not found
    /// when there is none.
    pub fn query_flow_element(&self, rows: Result<Vec<(FlowElementDb, HandlerTypeDb)>, String>) -> (r: Result<FlowElement, DbRepoError>)
        ensures
            rows matches Ok(v) ==> (v@.len() > 0 ==> (r matches Ok(e) && element_of_rows(e, v@[0].0, v@[0].1))),
            rows matches Ok(v) ==> v@.len() == 0 ==> r matches Err(DbRepoError::NotFound),
            rows matches Err(text) ==> (r matches Err(DbRepoError::QueryError(m)) && m@ == "Error fetching flow_item: "@ + text@),
    {
        match rows {
            Ok(mut found) => {
                if found.len() == 0 {
                    Err(DbRepoError::NotFound)
                } else {
                    let (ppfe, pht) = found.remove(0);
                    Ok(FlowElement::from_db(ppfe, pht))
                }
            },
            Err(text) => Err(DbRepoError::QueryError(prefixed("Error fetching flow_item: ", text))),
        }
    }

    /// The starting element of a flow, from the rows of its query.
    pub fn find_starting_element(&self, rows: Result<Vec<(FlowElementDb, HandlerTypeDb)>, String>) -> (r: Result<FlowElement, DbRepoError>)
        ensures
            rows matches Ok(v) ==> (v@.len() > 0 ==> (r matches Ok(e) && element_of_rows(e, v@[0].0, v@[0].1))),
            rows matches Ok(v) ==> v@.len() == 0 ==> r matches Err(DbRepoError::NotFound),
            rows matches Err(text) ==> (r matches Err(DbRepoError::QueryError(m)) && m@ == "Error fetching flow_item: "@ + text@),
    {
        self.query_flow_element(rows)
    }

    /// A flow element by id, from the rows of its query.
    pub fn get_flow_element(&self, rows: Result<Vec<(FlowElementDb, HandlerTypeDb)>, String>) -> (r: Result<FlowElement, DbRepoError>)
        ensures
            rows matches Ok(v) ==> (v@.len() > 0 ==> (r matches Ok(e) && element_of_rows(e, v@[0].0, v@[0].1))),
            rows matches Ok(v) ==> v@.len() == 0 ==> r matches Err(DbRepoError::NotFound),
            rows matches Err(text) ==> (r matches Err(DbRepoError::QueryError(m)) && m@ == "Error fetching flow_item: "@ + text@),
    {
        self.query_flow_element(rows)
    }

    /// The routes of the rows that the query gave, in order, each with the
    /// element it leads to.
    pub fn query_flow_routes(&self, rows: Result<Vec<(FlowRouteDb, FlowElementDb, HandlerTypeDb)>, String>) -> (r: Result<Vec<FlowRoute>, DbRepoError>)
        ensures
            rows matches Ok(v) ==> (r matches Ok(routes) && routes@.len() == v@.len()
                && forall|i: int| 0 <= i < v@.len() ==> {
                    let route = #[trigger] routes@[i];
                    &&& route.model == v@[i].0
                    &&& route.out_flow_element is None
                    &&& route.in_flow_element matches Some(e) && element_of_rows(e, v@[i].1, v@[i].2)
                }),
            rows matches Err(text) ==> (r matches Err(DbRepoError::QueryError(m)) && m@ == "Error fetching flow routes list: "@ + text@),
    {
        match rows {
            Ok(found) => {
                let ghost rows_seen = found@;
                let mut routes: Vec<FlowRoute> = Vec::new();
                let mut rest = found;
                while rest.len() > 0
                    invariant
                        rest@ == rows_seen.skip(routes@.len() as int),
                        routes@.len() <= rows_seen.len(),
                        forall|i: int| 0 <= i < routes@.len() ==> {
                            let route = #[trigger] routes@[i];
                            &&& route.model == rows_seen[i].0
                            &&& route.out_flow_element is None
                            &&& route.in_flow_element matches Some(e) && element_of_rows(e, rows_seen[i].1, rows_seen[i].2)
                        },
                    decreases rest@.len(),
                {
                    let ghost k = routes@.len() as int;
                    let (ppfr, ppfo, pht) = rest.remove(0);
                    routes.push(FlowRoute { model: ppfr, out_flow_element: None, in_flow_element: Some(FlowElement::from_db(ppfo, pht)) });
                    assert(rest@ =~= rows_seen.skip(k + 1));
                }
                Ok(routes)
            },
            Err(text) => Err(DbRepoError::QueryError(prefixed("Error fetching flow routes list: ", text))),
        }
    }

    /// The routes out of an element, from the rows of their query.
    pub fn get_out_routes(&self, rows: Result<Vec<(FlowRouteDb, FlowElementDb, HandlerTypeDb)>, String>) -> (r: Result<Vec<FlowRoute>, DbRepoError>)
        ensures
            rows matches Ok(v) ==> (r matches Ok(routes) && routes@.len() == v@.len()
                && forall|i: int| 0 <= i < v@.len() ==> {
                    let route = #[trigger] routes@[i];
                    &&& route.model == v@[i].0
                    &&& route.out_flow_element is None
                    &&& route.in_flow_element matches Some(e) && element_of_rows(e, v@[i].1, v@[i].2)
                }),
            rows matches Err(text) ==> (r matches Err(DbRepoError::QueryError(m)) && m@ == "Error fetching flow routes list: "@ + text@),
    {
        self.query_flow_routes(rows)
    }
}

} // verus!
