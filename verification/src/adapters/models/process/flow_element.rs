use vstd::prelude::*;
use crate::db::services::DbServiceError;
use crate::adapters::models::data_type::DataType;
use crate::adapters::models::handlers::HandlerType;
use crate::db::models::data_type_db::DataTypeDb;
use crate::db::models::flow_db::FlowElementArgumentDb;
use crate::db::models::handlers_db::HandlerTypeDb;
use crate::db::models::process_db::FlowElementDb;
use crate::debug_text::{service_error_debug_string, service_error_debug_text};
use crate::foreign::text::{lowercase_of, to_lowercase, trim, trim_of};
use crate::json::{str_equal, Json, JsonValue};

verus! {

/// One element of a process flow, with the handler that runs it.
#[derive(Debug)]
pub struct FlowElement {
    pub id: u128,
    pub el_type: String,
    pub handler_type: HandlerType,
    pub handler_value: JsonValue,
    pub description: String,
}

/// Whether a flow argument goes into an element or comes out of it.
#[derive(Debug, Clone, Copy, PartialEq, Eq, Structural)]
pub enum ArgumentDirection {
    In,
    Out,
    Undefined,
}

/// An argument that a flow element declares.
#[derive(Debug)]
pub struct FlowElementArgument {
    pub id: u128,
    pub name: String,
    pub direction: ArgumentDirection,
    pub data_type: DataType,
    pub is_required: bool,
}

/// Why a flow element could not be processed.
#[derive(Debug)]
pub enum ProcessError {
    NotFound,
    GeneralError(String, JsonValue),
}

/// The direction that a stored direction text stands for: `in` or `out`,
/// ignoring case and surrounding white space.
pub open spec fn direction_of(text: Seq<char>) -> ArgumentDirection {
    let t = trim_of(lowercase_of(text));
    if t == "in"@ {
        ArgumentDirection::In
    } else if t == "out"@ {
        ArgumentDirection::Out
    } else {
        ArgumentDirection::Undefined
    }
}

/// Whether the given arguments hold one named `name`.
pub open spec fn argument_given(given: Option<Seq<(String, JsonValue)>>, name: Seq<char>) -> bool {
    match given {
        Some(members) => given_names(members).contains(name),
        None => false,
    }
}

/// The names of the given arguments, in order.
pub open spec fn given_names(members: Seq<(String, JsonValue)>) -> Seq<Seq<char>> {
    members.map_values(|m: (String, JsonValue)| m.0@)
}

/// The names of the required arguments that are not given, in order.
pub open spec fn missing_required(args: Seq<FlowElementArgument>, given: Option<Seq<(String, JsonValue)>>) -> Seq<Seq<char>>
    decreases args.len(),
{
    if args.len() == 0 {
        Seq::empty()
    } else {
        let rest = missing_required(args.drop_last(), given);
        let a = args.last();
        if a.is_required && !argument_given(given, a.name@) {
            rest.push(a.name@)
        } else {
            rest
        }
    }
}

/// The JSON array of the given names.
pub open spec fn names_json(names: Seq<Seq<char>>) -> Json {
    Json::Array(names.map_values(|n: Seq<char>| Json::Str(n)))
}

/// Whether an argument with the given name is among `given`.
pub fn is_argument_given(given: &Option<Vec<(String, JsonValue)>>, name: &String) -> (r: bool)
    ensures
        r == argument_given(
            match given {
                Some(m) => Some(m@),
                None => None,
            },
            name@,
        ),
{
    match given {
        None => false,
        Some(members) => {
            let mut i: usize = 0;
            while i < members.len()
                invariant
                    *given == Some(*members),
                    i <= members@.len(),
                    forall|j: int| 0 <= j < i ==> #[trigger] given_names(members@)[j] != name@,
                decreases members@.len() - i,
            {
                if str_equal(members[i].0.as_str(), name.as_str()) {
                    assert(members@[i as int].0@ == name@);
                    assert(given_names(members@)[i as int] == name@);
                    return true;
                }
                i = i + 1;
            }
            assert(!given_names(members@).contains(name@));
            false
        },
    }
}

impl FlowElementArgument {
    /// The argument stored in a `pc_process_flow_element_argument` row, with
    /// its data type.
    pub fn from_db(db_model: &FlowElementArgumentDb, dt: &DataTypeDb) -> (r: FlowElementArgument)
        ensures
            r.id == db_model.id,
            r.name@ == db_model.arg_name@,
            r.direction == direction_of(db_model.direction@),
            r.data_type.id@ == dt.id@,
            r.data_type.name@ == dt.name@,
            r.data_type.handler@ == dt.handler@,
            r.is_required == db_model.is_required,
    {
        let lower = to_lowercase(db_model.direction.as_str());
        let t = trim(lower.as_str());
        let direction = if str_equal(t, "in") {
            ArgumentDirection::In
        } else if str_equal(t, "out") {
            ArgumentDirection::Out
        } else {
            ArgumentDirection::Undefined
        };
        FlowElementArgument {
            id: db_model.id,
            name: db_model.arg_name.clone(),
            direction,
            data_type: DataType::from_db(dt),
            is_required: db_model.is_required,
        }
    }
}

impl FlowElement {
    /// The flow element stored in a `pc_process_flow_element` row, with its
    /// handler type; a missing description becomes the empty text.
    pub fn from_db(db_model: FlowElementDb, handler: HandlerTypeDb) -> (r: FlowElement)
        ensures
            r.id == db_model.id,
            r.el_type@ == db_model.el_type@,
            r.handler_type.name@ == handler.name@,
            r.handler_value@ == db_model.handler_value@,
            r.description@ == match db_model.description {
                Some(d) => d@,
                None => Seq::<char>::empty(),
            },
    {
        let description = match db_model.description {
            Some(d) => d,
            None => String::new(),
        };
        FlowElement {
            id: db_model.id,
            el_type: db_model.el_type,
            handler_type: HandlerType::from_db(handler),
            handler_value: db_model.handler_value,
            description,
        }
    }

    /// The element's arguments as the flow service returned them; a service
    /// error becomes a general error that carries its text.
    pub fn get_all_arguments(&self, fetched: Result<Vec<FlowElementArgument>, DbServiceError>) -> (r: Result<Vec<FlowElementArgument>, ProcessError>)
        ensures
            fetched matches Ok(args) ==> r matches Ok(a) && a == args,
            fetched matches Err(e) ==> (r matches Err(ProcessError::GeneralError(text, value))
                && text@ == service_error_debug_text(e) && value@ == Json::empty_object()),
    {
        match fetched {
            Ok(args) => Ok(args),
            Err(err) => Err(ProcessError::GeneralError(service_error_debug_string(&err), JsonValue::empty_object())),
        }
    }

    /// Checks the given arguments against the element's arguments: every
    /// required argument must be given. The error names those that are not.
    pub fn process(&self, args_to_process: &Option<Vec<(String, JsonValue)>>, arguments: Result<Vec<FlowElementArgument>, ProcessError>) -> (r: Result<(), ProcessError>)
        ensures
            arguments is Err ==> r matches Err(ProcessError::NotFound),
            arguments matches Ok(args) ==> {
                let missing = missing_required(args@, match args_to_process {
                    Some(m) => Some(m@),
                    None => None,
                });
                &&& missing.len() == 0 ==> r is Ok
                &&& missing.len() > 0 ==> (r matches Err(ProcessError::GeneralError(text, value))
                    && text@ == "Args that are not found"@
                    && value@ == Json::single("arguments"@, names_json(missing)))
            },
    {
        match arguments {
            Err(_) => Err(ProcessError::NotFound),
            Ok(args) => {
                let ghost given = match args_to_process {
                    Some(m) => Some(m@),
                    None => None,
                };
                let mut missing: Vec<String> = Vec::new();
                let mut i: usize = 0;
                while i < args.len()
                    invariant
                        i <= args@.len(),
                        given == match args_to_process {
                            Some(m) => Some(m@),
                            None => None,
                        },
                        missing@.map_values(|s: String| s@) == missing_required(args@.take(i as int), given),
                    decreases args@.len() - i,
                {
                    assert(args@.take(i + 1).drop_last() =~= args@.take(i as int));
                    if args[i].is_required && !is_argument_given(args_to_process, &args[i].name) {
                        missing.push(args[i].name.clone());
                    }
                    assert(missing@.map_values(|s: String| s@) =~= missing_required(args@.take(i + 1), given));
                    i = i + 1;
                }
                assert(args@.take(args@.len() as int) =~= args@);
                if missing.len() > 0 {
                    let ghost names = missing@;
                    let value = JsonValue::single_member("arguments", JsonValue::string_array(missing));
                    proof {
                        assert(names.map_values(|s: String| Json::Str(s@)) =~= names.map_values(|s: String| s@).map_values(|n: Seq<char>| Json::Str(n)));
                    }
                    Err(ProcessError::GeneralError("Args that are not found".to_string(), value))
                } else {
                    Ok(())
                }
            },
        }
    }
}


/// The check of an element's arguments names exactly the required arguments
/// that are not given, in their order: a name is reported if and only if a
/// required argument of that name is missing, and nothing is reported if
/// and only if every required argument is given.
pub proof fn lemma_missing_required_exact(args: Seq<FlowElementArgument>, given: Option<Seq<(String, JsonValue)>>)
    ensures
        forall|n: Seq<char>| missing_required(args, given).contains(n) <==> exists|i: int|
            0 <= i < args.len() && #[trigger] args[i].name@ == n && args[i].is_required && !argument_given(given, n),
        missing_required(args, given).len() == 0 <==> forall|i: int|
            0 <= i < args.len() && #[trigger] args[i].is_required ==> argument_given(given, args[i].name@),
    decreases args.len(),
{
    if args.len() > 0 {
        let rest = args.drop_last();
        lemma_missing_required_exact(rest, given);
        let a = args.last();
        let m = missing_required(args, given);
        let mr = missing_required(rest, given);
        assert forall|n: Seq<char>| m.contains(n) <==> exists|i: int|
            0 <= i < args.len() && #[trigger] args[i].name@ == n && args[i].is_required && !argument_given(given, n) by {
            if m.contains(n) {
                if mr.contains(n) {
                    let i = choose|i: int| 0 <= i < rest.len() && #[trigger] rest[i].name@ == n && rest[i].is_required && !argument_given(given, n);
                    assert(args[i] == rest[i]);
                } else {
                    let j = choose|j: int| 0 <= j < m.len() && m[j] == n;
                    assert(j == mr.len());
                    assert(args[args.len() - 1].name@ == n);
                }
            }
            if exists|i: int| 0 <= i < args.len() && #[trigger] args[i].name@ == n && args[i].is_required && !argument_given(given, n) {
                let i = choose|i: int| 0 <= i < args.len() && #[trigger] args[i].name@ == n && args[i].is_required && !argument_given(given, n);
                if i < args.len() - 1 {
                    assert(rest[i] == args[i]);
                    assert(mr.contains(n));
                    let j = choose|j: int| 0 <= j < mr.len() && mr[j] == n;
                    assert(m[j] == n);
                } else {
                    assert(m[mr.len() as int] == n);
                }
            }
        }
        if m.len() == 0 {
            assert forall|i: int| 0 <= i < args.len() && #[trigger] args[i].is_required implies argument_given(given, args[i].name@) by {
                if !argument_given(given, args[i].name@) {
                    assert(m.contains(args[i].name@));
                }
            }
        }
        if forall|i: int| 0 <= i < args.len() && #[trigger] args[i].is_required ==> argument_given(given, args[i].name@) {
            assert forall|i: int| 0 <= i < rest.len() && #[trigger] rest[i].is_required implies argument_given(given, rest[i].name@) by {
                assert(args[i] == rest[i]);
            }
            assert(a == args[args.len() - 1]);
        }
    }
}

} // verus!
