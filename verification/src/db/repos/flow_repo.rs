use vstd::prelude::*;
use crate::adapters::models::common_error::{error_of, error_with, ErrorDefinition, ErrorView};
use crate::adapters::models::worker::task_variable::TaskVariable;
use crate::db::models::data_type_db::DataTypeDb;
use crate::db::models::flow_db::FlowElementArgumentDb;
use crate::db::repos::DbRepoError;
use crate::debug_text::{repo_error_debug_string, repo_error_debug_text};
use crate::json::{json_of, lemma_json_of_items, str_equal, Json, JsonValue};

verus! {

/// Reads the arguments of flow elements and stores what elements produce.
#[derive(Debug, Clone, Copy, PartialEq, Eq, Structural)]
pub struct FlowRepo;

/// The steps of storing an element's out variables.
#[derive(Debug, Clone, Copy, PartialEq, Eq, Structural)]
pub enum SaveStep {
    DeleteOld,
    Update,
    Insert,
    GetArguments,
    Finished,
}

/// What to do next to store an element's out variables.
#[derive(Debug)]
pub enum SaveAction {
    /// Delete the task's variables that belong to the element.
    DeleteElementVariables { task_id: u128, element_id: u128 },
    /// Set the value of the task's variable `name`, returning the ids of the
    /// rows changed.
    UpdateVariable { task_id: u128, name: String, value: JsonValue },
    /// Insert the task's variable `name`.
    InsertVariable { task_id: u128, name: String, data_type: String, value: JsonValue },
    /// Read the element's arguments.
    GetArguments { element_id: u128 },
    Finish(Result<Vec<(FlowElementArgumentDb, DataTypeDb)>, ErrorDefinition>),
}

/// What the database answered.
#[derive(Debug)]
pub enum SaveEvent {
    Deleted(Result<(), String>),
    Updated(Result<Vec<u128>, String>),
    Inserted(Result<(), String>),
    Arguments(Result<Vec<(FlowElementArgumentDb, DataTypeDb)>, DbRepoError>),
}

/// The failed names and error texts, as JSON pairs.
pub open spec fn failures_json(errors: Seq<(String, String)>) -> Json {
    Json::Array(errors.map_values(|p: (String, String)| Json::Array(seq![Json::Str(p.0@), Json::Str(p.1@)])))
}

/// The error that storing gives when some variables failed.
pub open spec fn saving_failed(errors: Seq<(String, String)>) -> ErrorView {
    error_of("Error saving results"@, Json::single("fields_with_errors"@, failures_json(errors)))
}

/// Where the first variable named `name` is, if there is one.
pub open spec fn is_first_named(vars: Seq<TaskVariable>, name: Seq<char>, found: Option<usize>) -> bool {
    match found {
        Some(i) => i < vars.len() && vars[i as int].name@ == name
            && forall|j: int| 0 <= j < i ==> #[trigger] vars[j].name@ != name,
        None => forall|j: int| 0 <= j < vars.len() ==> #[trigger] vars[j].name@ != name,
    }
}

fn find_variable(vars: &Vec<TaskVariable>, name: &String) -> (r: Option<usize>)
    ensures
        is_first_named(vars@, name@, r),
{
    let mut i: usize = 0;
    while i < vars.len()
        invariant
            i <= vars@.len(),
            forall|j: int| 0 <= j < i ==> #[trigger] vars@[j].name@ != name@,
        decreases vars@.len() - i,
    {
        if str_equal(vars[i].name.as_str(), name.as_str()) {
            return Some(i);
        }
        i = i + 1;
    }
    None
}

fn failures_to_json(errors: &Vec<(String, String)>) -> (r: JsonValue)
    ensures
        r@ == failures_json(errors@),
{
    let mut items: Vec<JsonValue> = Vec::new();
    let mut i: usize = 0;
    while i < errors.len()
        invariant
            i <= errors@.len(),
            items@.len() == i,
            forall|j: int| 0 <= j < i ==> #[trigger] json_of(items@[j]) == Json::Array(seq![Json::Str(errors@[j].0@), Json::Str(errors@[j].1@)]),
        decreases errors@.len() - i,
    {
        let mut pair: Vec<JsonValue> = Vec::new();
        pair.push(JsonValue::String(errors[i].0.clone()));
        pair.push(JsonValue::String(errors[i].1.clone()));
        proof {
            lemma_json_of_items(pair@);
            assert(crate::json::json_of_items(pair@) =~= seq![Json::Str(errors@[i as int].0@), Json::Str(errors@[i as int].1@)]);
        }
        items.push(JsonValue::Array(pair));
        i = i + 1;
    }
    proof {
        lemma_json_of_items(items@);
        assert(crate::json::json_of_items(items@) =~= errors@.map_values(|p: (String, String)| Json::Array(seq![Json::Str(p.0@), Json::Str(p.1@)])));
    }
    JsonValue::Array(items)
}

/// Storing the variables that an element produced, one out argument name at
/// a time: delete the element's stored variables, then, when a produced
/// variable has the name, update the task's variable of that name, or
/// insert it when no row was updated. Failures are gathered; at the end the
/// element's arguments are read back, or the failures reported.
#[derive(Debug)]
pub struct SaveOutVariables {
    pub task_id: u128,
    pub element_id: u128,
    pub arg_names: Vec<String>,
    pub task_variables: Vec<TaskVariable>,
    pub errors: Vec<(String, String)>,
    pub next: usize,
    pub found: usize,
    pub step: SaveStep,
}

impl SaveOutVariables {
    /// The fixed parts of the run are unchanged.
    pub open spec fn same_task(self, other: SaveOutVariables) -> bool {
        &&& self.task_id == other.task_id
        &&& self.element_id == other.element_id
        &&& self.arg_names == other.arg_names
        &&& self.task_variables == other.task_variables
    }

    /// Whether the run's state is consistent.
    pub open spec fn wf(self) -> bool {
        &&& self.next <= self.arg_names@.len()
        &&& (self.step is DeleteOld || self.step is Update || self.step is Insert) ==> self.next < self.arg_names@.len()
        &&& (self.step is Update || self.step is Insert) ==> self.found < self.task_variables@.len()
            && self.task_variables@[self.found as int].name@ == self.arg_names@[self.next as int]@
        &&& self.step is GetArguments ==> self.errors@.len() == 0
    }

    pub open spec fn expects(self, event: SaveEvent) -> bool {
        match self.step {
            SaveStep::DeleteOld => event is Deleted,
            SaveStep::Update => event is Updated,
            SaveStep::Insert => event is Inserted,
            SaveStep::GetArguments => event is Arguments,
            SaveStep::Finished => false,
        }
    }

    pub fn accepts(&self, event: &SaveEvent) -> (r: bool)
        ensures
            r == self.expects(*event),
    {
        match (self.step, event) {
            (SaveStep::DeleteOld, SaveEvent::Deleted(_)) => true,
            (SaveStep::Update, SaveEvent::Updated(_)) => true,
            (SaveStep::Insert, SaveEvent::Inserted(_)) => true,
            (SaveStep::GetArguments, SaveEvent::Arguments(_)) => true,
            _ => false,
        }
    }

    /// Whether `action` is what comes once the names before `self.next`
    /// are done.
    pub open spec fn continues(self, action: SaveAction) -> bool {
        if self.next < self.arg_names@.len() {
            self.step == SaveStep::DeleteOld
                && action == (SaveAction::DeleteElementVariables { task_id: self.task_id, element_id: self.element_id })
        } else if self.errors@.len() == 0 {
            self.step == SaveStep::GetArguments && action == (SaveAction::GetArguments { element_id: self.element_id })
        } else {
            self.step == SaveStep::Finished && (action matches SaveAction::Finish(Err(e)) && e@ == saving_failed(self.errors@))
        }
    }

    fn continue_from(&mut self) -> (action: SaveAction)
        requires
            old(self).next <= old(self).arg_names@.len(),
        ensures
            final(self).same_task(*old(self)),
            final(self).errors == old(self).errors,
            final(self).next == old(self).next,
            final(self).continues(action),
            final(self).wf(),
    {
        if self.next < self.arg_names.len() {
            self.step = SaveStep::DeleteOld;
            SaveAction::DeleteElementVariables { task_id: self.task_id, element_id: self.element_id }
        } else if self.errors.len() == 0 {
            self.step = SaveStep::GetArguments;
            SaveAction::GetArguments { element_id: self.element_id }
        } else {
            self.step = SaveStep::Finished;
            let failures = failures_to_json(&self.errors);
            SaveAction::Finish(Err(ErrorDefinition::with_reason("Error saving results".to_string(), JsonValue::single_member("fields_with_errors", failures))))
        }
    }

    fn advance(&mut self) -> (action: SaveAction)
        requires
            old(self).next < old(self).arg_names@.len(),
        ensures
            final(self).same_task(*old(self)),
            final(self).errors == old(self).errors,
            final(self).next == old(self).next + 1,
            final(self).continues(action),
            final(self).wf(),
    {
        let len = self.arg_names.len();
        assert(self.next < len);
        self.next = self.next + 1;
        self.continue_from()
    }

    /// One step of saving: from the run's state and the database's answer,
    /// the next state and action.
    pub open spec fn transition(self, event: SaveEvent, next: SaveOutVariables, action: SaveAction) -> bool {
        &&& next.same_task(self)
        &&& next.wf()
        &&& self.step == SaveStep::DeleteOld ==> match event {
            SaveEvent::Deleted(deleted) => {
                let name = self.arg_names@[self.next as int];
                let errors = match deleted {
                    Ok(()) => self.errors@,
                    Err(t) => self.errors@.push((name, t)),
                };
                &&& next.errors@ == errors
                &&& exists|found: Option<usize>| is_first_named(self.task_variables@, name@, found) && match found {
                    Some(i) => next.step == SaveStep::Update && next.found == i
                        && next.next == self.next
                        && (action matches SaveAction::UpdateVariable { task_id, name: n, value }
                            && task_id == self.task_id && n@ == name@
                            && value@ == self.task_variables@[i as int].value@),
                    None => next.next == self.next + 1 && next.continues(action),
                }
            },
            _ => false,
        }
        &&& self.step == SaveStep::Update ==> match event {
            SaveEvent::Updated(Ok(rows)) => next.errors == self.errors && if rows@.len() == 0 {
                let var = self.task_variables@[self.found as int];
                next.step == SaveStep::Insert && next.next == self.next
                    && next.found == self.found
                    && (action matches SaveAction::InsertVariable { task_id, name, data_type, value }
                        && task_id == self.task_id && name@ == var.name@
                        && data_type@ == var.data_type.id@ && value@ == var.value@)
            } else {
                next.next == self.next + 1 && next.continues(action)
            },
            SaveEvent::Updated(Err(t)) => {
                let var = self.task_variables@[self.found as int];
                &&& next.errors@ == self.errors@.push((var.name, t))
                &&& next.next == self.next + 1
                &&& next.continues(action)
            },
            _ => false,
        }
        &&& self.step == SaveStep::Insert ==> match event {
            SaveEvent::Inserted(inserted) => {
                let var = self.task_variables@[self.found as int];
                &&& next.errors@ == match inserted {
                    Ok(()) => self.errors@,
                    Err(t) => self.errors@.push((var.name, t)),
                }
                &&& next.next == self.next + 1
                &&& next.continues(action)
            },
            _ => false,
        }
        &&& self.step == SaveStep::GetArguments ==> next.step == SaveStep::Finished && next.errors == self.errors
            && match event {
                SaveEvent::Arguments(Ok(args)) => action == SaveAction::Finish(Ok(args)),
                SaveEvent::Arguments(Err(e)) => action matches SaveAction::Finish(Err(err))
                    && err@ == error_with("Db error"@, repo_error_debug_text(e)),
                _ => false,
            }
        &&& self.step == SaveStep::Finished ==> false
    }

    /// The next action, given the database's answer to the last one.
    pub fn next(&mut self, event: SaveEvent) -> (action: SaveAction)
        requires
            old(self).wf(),
            old(self).expects(event),
        ensures
            old(self).transition(event, *final(self), action),
    {
        match event {
            SaveEvent::Deleted(deleted) => {
                let i = self.next;
                match deleted {
                    Ok(()) => {},
                    Err(t) => {
                        let name = self.arg_names[i].clone();
                        self.errors.push((name, t));
                    },
                }
                let found = find_variable(&self.task_variables, &self.arg_names[i]);
                match found {
                    Some(k) => {
                        self.step = SaveStep::Update;
                        self.found = k;
                        let name = self.arg_names[i].clone();
                        let value = self.task_variables[k].value.deep_copy();
                        SaveAction::UpdateVariable { task_id: self.task_id, name, value }
                    },
                    None => self.advance(),
                }
            },
            SaveEvent::Updated(Ok(rows)) => {
                if rows.len() == 0 {
                    self.step = SaveStep::Insert;
                    let k = self.found;
                    let name = self.task_variables[k].name.clone();
                    let data_type = self.task_variables[k].data_type.id.clone();
                    let value = self.task_variables[k].value.deep_copy();
                    SaveAction::InsertVariable { task_id: self.task_id, name, data_type, value }
                } else {
                    self.advance()
                }
            },
            SaveEvent::Updated(Err(t)) => {
                let name = self.task_variables[self.found].name.clone();
                self.errors.push((name, t));
                self.advance()
            },
            SaveEvent::Inserted(inserted) => {
                match inserted {
                    Ok(()) => {},
                    Err(t) => {
                        let name = self.task_variables[self.found].name.clone();
                        self.errors.push((name, t));
                    },
                }
                self.advance()
            },
            SaveEvent::Arguments(args) => {
                self.step = SaveStep::Finished;
                match args {
                    Ok(args) => SaveAction::Finish(Ok(args)),
                    Err(e) => SaveAction::Finish(Err(ErrorDefinition::with_error("Db error", repo_error_debug_string(&e)))),
                }
            },
        }
    }
}

impl FlowRepo {
    pub fn new() -> (r: FlowRepo)
        ensures
            r == FlowRepo,
    {
        FlowRepo
    }

    /// The element's arguments with their data types, from the rows that
    /// the query gave, or the query's error.
    pub fn get_flow_item_arguments(&self, rows: Result<Vec<(FlowElementArgumentDb, DataTypeDb)>, String>) -> (r: Result<Vec<(FlowElementArgumentDb, DataTypeDb)>, DbRepoError>)
        ensures
            rows matches Ok(v) ==> r == Ok::<Vec<(FlowElementArgumentDb, DataTypeDb)>, DbRepoError>(v),
            rows matches Err(t) ==> (r matches Err(DbRepoError::QueryError(m)) && m@ == "Error fetching arguments list: "@ + t@),
    {
        match rows {
            Ok(args) => Ok(args),
            Err(t) => {
                let mut message = String::from_str("Error fetching arguments list: ");
                message.append(t.as_str());
                Err(DbRepoError::QueryError(message))
            },
        }
    }

    /// Starts storing the variables that the element `element_id` produced
    /// for the task `task_id`, for the given out argument names.
    pub fn save_flow_item_out_variables(&self, task_id: u128, element_id: u128, arg_names: Vec<String>, task_variables: Vec<TaskVariable>) -> (r: (SaveOutVariables, SaveAction))
        ensures
            r.0.task_id == task_id,
            r.0.element_id == element_id,
            r.0.arg_names == arg_names,
            r.0.task_variables == task_variables,
            r.0.errors@.len() == 0,
            r.0.next == 0,
            r.0.wf(),
            r.0.continues(r.1),
    {
        let mut run = SaveOutVariables {
            task_id,
            element_id,
            arg_names,
            task_variables,
            errors: Vec::new(),
            next: 0,
            found: 0,
            step: SaveStep::DeleteOld,
        };
        let action = run.continue_from();
        (run, action)
    }
}

} // verus!

verus! {

/// Whether the states, events and actions are a run of saving: each state
/// steps to the next on its event, giving its action.
pub open spec fn is_save_run(states: Seq<SaveOutVariables>, events: Seq<SaveEvent>, actions: Seq<SaveAction>) -> bool {
    &&& states.len() == events.len() + 1
    &&& actions.len() == events.len()
    &&& forall|k: int| 0 <= k < events.len() ==> #[trigger] states[k].transition(events[k], states[k + 1], actions[k])
}

/// Whether the event reports a failed delete, update or insert.
pub open spec fn write_failed(event: SaveEvent) -> bool {
    ||| event matches SaveEvent::Deleted(Err(_))
    ||| event matches SaveEvent::Updated(Err(_))
    ||| event matches SaveEvent::Inserted(Err(_))
}

proof fn lemma_failures_kept(states: Seq<SaveOutVariables>, events: Seq<SaveEvent>, actions: Seq<SaveAction>, j: int, k: int)
    requires
        is_save_run(states, events, actions),
        0 <= j <= k < states.len(),
    ensures
        states[j].errors@.len() <= states[k].errors@.len(),
        j < k && write_failed(events[j]) ==> states[k].errors@.len() > 0,
    decreases k - j,
{
    if j < k {
        lemma_failures_kept(states, events, actions, j, k - 1);
        let i = k - 1;
        assert(states[i].transition(events[i], states[i + 1], actions[i]));
        assert(states[j].transition(events[j], states[j + 1], actions[j]));
        lemma_failures_kept(states, events, actions, j + 1, k);
    }
}

/// In every run of saving, success is reported only when no write failed;
/// once a delete, update or insert failed, the run can only end with
/// `Error saving results`, listing what failed.
pub proof fn lemma_saved_only_without_failures(states: Seq<SaveOutVariables>, events: Seq<SaveEvent>, actions: Seq<SaveAction>, j: int, k: int)
    requires
        is_save_run(states, events, actions),
        states[0].wf(),
        0 <= j < k < actions.len(),
        write_failed(events[j]),
        actions[k] is Finish,
    ensures
        actions[k] matches SaveAction::Finish(Err(e)) && e@ == saving_failed(states[k + 1].errors@),
        states[k + 1].errors@.len() > 0,
{
    lemma_failures_kept(states, events, actions, j, k);
    lemma_failures_kept(states, events, actions, k, k + 1);
    assert(states[k].transition(events[k], states[k + 1], actions[k]));
    assert(states[k].wf()) by {
        let i = k - 1;
        assert(states[i].transition(events[i], states[i + 1], actions[i]));
    }
}

} // verus!
