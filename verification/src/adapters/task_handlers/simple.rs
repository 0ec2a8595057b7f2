use vstd::prelude::*;
use crate::adapters::models::common_error::ErrorDefinition;
use crate::adapters::models::data_type::DataType;
use crate::adapters::models::worker::task_variable::TaskVariable;
use crate::adapters::models::worker::task_worker_result::{TaskWorkerResult, WorkerResult};
use crate::db::models::data_type_db::DataTypeDb;
use crate::foreign::ids::{uuid_text, uuid_to_string};
use crate::json::{Json, JsonValue};

verus! {

/// A handler that adds two text variables to the task's variables.
#[derive(Debug, Clone, Copy, PartialEq, Eq, Structural)]
pub struct SimpleHandler {}

/// Whether `v` is a new variable with this name, data type and value.
pub open spec fn new_variable_is(v: TaskVariable, name: Seq<char>, dt: DataTypeDb, value: Json) -> bool {
    &&& v.id == 0
    &&& v.name@ == name
    &&& v.data_type.id@ == dt.id@
    &&& v.data_type.name@ == dt.name@
    &&& v.data_type.handler@ == dt.handler@
    &&& v.value@ == value
}

impl SimpleHandler {
    pub fn new() -> (r: SimpleHandler)
        ensures
            r == (SimpleHandler {}),
    {
        SimpleHandler {}
    }

    /// Done, with the task's variables followed by `text` ("This is text")
    /// and `text_1` ("Task id is: " and the task's id), both of the data
    /// types given (the `string` type as the database holds it).
    pub fn process(&self, task_id: u128, args: Option<Vec<TaskVariable>>, text_type: &DataTypeDb, text_1_type: &DataTypeDb) -> (r: Result<TaskWorkerResult, ErrorDefinition>)
        ensures
            r matches Ok(res) && {
                let base = match args {
                    Some(a) => a@,
                    None => Seq::<TaskVariable>::empty(),
                };
                &&& res.result == WorkerResult::Done
                &&& res.wait_until is None
                &&& res.out_args@.len() == base.len() + 2
                &&& res.out_args@.take(base.len() as int) == base
                &&& new_variable_is(res.out_args@[base.len() as int], "text"@, *text_type, Json::Str("This is text"@))
                &&& new_variable_is(res.out_args@[base.len() + 1int], "text_1"@, *text_1_type,
                    Json::Str("Task id is: "@ + uuid_text(task_id)))
            },
    {
        let mut args = match args {
            Some(a) => a,
            None => Vec::new(),
        };
        let ghost base = args@;
        args.push(TaskVariable::new("text".to_string(), DataType::from_db(text_type), JsonValue::text("This is text")));
        let mut message = String::from_str("Task id is: ");
        let id_text = uuid_to_string(task_id);
        message.append(id_text.as_str());
        args.push(TaskVariable::new("text_1".to_string(), DataType::from_db(text_1_type), JsonValue::String(message)));
        assert(args@.take(base.len() as int) =~= base);
        Ok(TaskWorkerResult::ok_with_args(args))
    }
}

} // verus!
