//! Running the scripts of flow elements and of route conditions.
use vstd::prelude::*;
use crate::adapters::models::common_error::{error_is, error_of, ErrorDefinition};
use crate::adapters::models::process::flow_element::{ArgumentDirection, FlowElementArgument};
use crate::adapters::models::worker::task_variable::{engine_ready, engine_value_of, push_engine_value, scope_value_of, script_data_type, TaskVariable};
use crate::foreign::engine::{eval_bool, new_engine, new_scope, scope_entries, scope_get, scope_names, ScopeValue};
use crate::json::Json;

pub mod vars;

verus! {

/// Runs scripts with the variables of a task.
#[derive(Debug, Clone, Copy, PartialEq, Eq, Structural)]
pub struct JsCodeService {}

/// The scope entries that the given variables make, in order.
pub open spec fn entries_of(vars: Seq<TaskVariable>) -> Seq<(Seq<char>, ScopeValue)> {
    vars.map_values(|v: TaskVariable| (v.name@, scope_value_of(engine_value_of(v))))
}

/// Whether the variable is one that a script value becomes: not stored yet,
/// typed by one of the script data types (its id and name alike, no
/// handler), holding the value's text.
pub open spec fn script_variable(v: TaskVariable) -> bool {
    &&& v.id == 0
    &&& v.data_type.id@ == v.data_type.name@
    &&& script_data_type(v.data_type.id@)
    &&& v.data_type.handler@ == Seq::<char>::empty()
    &&& v.value@ is Str
}

/// The names of the `Out` arguments that the scope holds, in order.
pub open spec fn present_out_names(args: Seq<FlowElementArgument>, names: Seq<Seq<char>>) -> Seq<Seq<char>>
    decreases args.len(),
{
    if args.len() == 0 {
        Seq::empty()
    } else {
        let rest = present_out_names(args.drop_last(), names);
        let a = args.last();
        if a.direction == ArgumentDirection::Out && names.contains(a.name@) {
            rest.push(a.name@)
        } else {
            rest
        }
    }
}

/// The names of the `Out` arguments, in order.
pub open spec fn out_names(args: Seq<FlowElementArgument>) -> Seq<Seq<char>>
    decreases args.len(),
{
    if args.len() == 0 {
        Seq::empty()
    } else {
        let rest = out_names(args.drop_last());
        if args.last().direction == ArgumentDirection::Out {
            rest.push(args.last().name@)
        } else {
            rest
        }
    }
}

/// Every name that [`present_out_names`] keeps is an `Out` argument's.
pub proof fn lemma_present_out_names_are_out_names(args: Seq<FlowElementArgument>, names: Seq<Seq<char>>)
    ensures
        forall|n: Seq<char>| #[trigger] present_out_names(args, names).contains(n) ==> out_names(args).contains(n) && names.contains(n),
    decreases args.len(),
{
    if args.len() > 0 {
        lemma_present_out_names_are_out_names(args.drop_last(), names);
        let rest = present_out_names(args.drop_last(), names);
        let outs = out_names(args.drop_last());
        assert forall|n: Seq<char>| #[trigger] present_out_names(args, names).contains(n) implies out_names(args).contains(n) && names.contains(n) by {
            if rest.contains(n) {
                let k = choose|k: int| 0 <= k < rest.len() && rest[k] == n;
                assert(outs.contains(n));
                let m = choose|m: int| 0 <= m < outs.len() && outs[m] == n;
                if args.last().direction == ArgumentDirection::Out {
                    assert(out_names(args)[m] == n);
                }
            } else {
                assert(n == args.last().name@);
                assert(out_names(args).last() == n);
            }
        }
    }
}

/// Every `Out` argument whose name the scope holds is among the names that
/// [`present_out_names`] keeps.
pub proof fn lemma_present_out_names_complete(args: Seq<FlowElementArgument>, names: Seq<Seq<char>>, i: int)
    requires
        0 <= i < args.len(),
        args[i].direction == ArgumentDirection::Out,
        names.contains(args[i].name@),
    ensures
        present_out_names(args, names).contains(args[i].name@),
    decreases args.len(),
{
    let rest = present_out_names(args.drop_last(), names);
    if i == args.len() - 1 {
        assert(present_out_names(args, names) == rest.push(args[i].name@));
        assert(present_out_names(args, names).last() == args[i].name@);
    } else {
        assert(args.drop_last()[i] == args[i]);
        lemma_present_out_names_complete(args.drop_last(), names, i);
        let k = choose|k: int| 0 <= k < rest.len() && rest[k] == args[i].name@;
        let a = args.last();
        if a.direction == ArgumentDirection::Out && names.contains(a.name@) {
            assert(present_out_names(args, names)[k] == args[i].name@);
        } else {
            assert(present_out_names(args, names)[k] == args[i].name@);
        }
    }
}

impl JsCodeService {
    pub fn new() -> (r: JsCodeService)
        ensures
            r == (JsCodeService {}),
    {
        JsCodeService {}
    }

    /// A script scope holding the given variables, in order.
    pub fn scope_of(&self, vars: &Vec<TaskVariable>) -> (r: rhai::Scope<'static>)
        requires
            forall|i: int| 0 <= i < vars@.len() ==> #[trigger] engine_ready(vars@[i]),
        ensures
            scope_entries(r) == entries_of(vars@),
    {
        let mut scope = new_scope();
        let mut i: usize = 0;
        while i < vars.len()
            invariant
                i <= vars@.len(),
                forall|j: int| 0 <= j < vars@.len() ==> #[trigger] engine_ready(vars@[j]),
                scope_entries(scope) == entries_of(vars@.take(i as int)),
            decreases vars@.len() - i,
        {
            let value = vars[i].to_engine_value();
            push_engine_value(&mut scope, vars[i].name.clone(), value);
            assert(entries_of(vars@.take(i + 1)) =~= entries_of(vars@.take(i as int)).push((vars@[i as int].name@, scope_value_of(engine_value_of(vars@[i as int])))));
            i = i + 1;
        }
        assert(vars@.take(vars@.len() as int) =~= vars@);
        scope
    }

    /// What a route condition's evaluation gives: its value, or the error
    /// `Couldn't evaluate script` with the engine's text.
    pub fn condition_outcome(&self, evaluated: Result<bool, String>) -> (r: Result<bool, ErrorDefinition>)
        ensures
            evaluated matches Ok(b) ==> r == Ok::<bool, ErrorDefinition>(b),
            evaluated matches Err(text) ==> (r matches Err(e)
                && error_is(e, "Couldn't evaluate script"@, Json::single("error"@, Json::Str(text@)))),
    {
        match evaluated {
            Ok(b) => Ok(b),
            Err(text) => Err(ErrorDefinition::with_error("Couldn't evaluate script", text)),
        }
    }

    /// Evaluates a route condition with the task's variables. The engine
    /// decides the value; an engine error becomes `Couldn't evaluate script`.
    pub fn evaluate_from_task(&self, code: &str, vars: &Vec<TaskVariable>) -> (r: Result<bool, ErrorDefinition>)
        requires
            forall|i: int| 0 <= i < vars@.len() ==> #[trigger] engine_ready(vars@[i]),
        ensures
            r matches Err(e) ==> exists|text: Seq<char>|
                e@ == #[trigger] error_of("Couldn't evaluate script"@, Json::single("error"@, Json::Str(text))),
    {
        let engine = new_engine();
        let mut scope = self.scope_of(vars);
        let evaluated = eval_bool(&engine, &mut scope, code);
        self.condition_outcome(evaluated)
    }

    /// The variables that the script left for the element's `Out`
    /// arguments, in the arguments' order; arguments that the scope does not
    /// hold are skipped.
    pub fn collect_out_variables(&self, scope: &rhai::Scope, args: &Vec<FlowElementArgument>) -> (r: Vec<TaskVariable>)
        ensures
            r@.map_values(|v: TaskVariable| v.name@) == present_out_names(args@, scope_names(*scope)),
            forall|k: int| 0 <= k < r@.len() ==> #[trigger] script_variable(r@[k]),
    {
        let mut out: Vec<TaskVariable> = Vec::new();
        let mut i: usize = 0;
        while i < args.len()
            invariant
                i <= args@.len(),
                out@.map_values(|v: TaskVariable| v.name@) == present_out_names(args@.take(i as int), scope_names(*scope)),
                forall|k: int| 0 <= k < out@.len() ==> #[trigger] script_variable(out@[k]),
            decreases args@.len() - i,
        {
            assert(args@.take(i + 1).drop_last() =~= args@.take(i as int));
            if args[i].direction == ArgumentDirection::Out {
                let found = scope_get(scope, args[i].name.as_str());
                match found {
                    Some(value) => {
                        let v = TaskVariable::from_dynamic(args[i].name.clone(), value);
                        out.push(v);
                    },
                    None => {},
                }
            }
            assert(out@.map_values(|v: TaskVariable| v.name@) =~= present_out_names(args@.take(i + 1), scope_names(*scope)));
            i = i + 1;
        }
        assert(args@.take(args@.len() as int) =~= args@);
        out
    }

    /// What running a flow element's script gives: the variables collected
    /// after it ran, or the error `Couldn't run script` with the engine's
    /// text.
    pub fn script_result(&self, evaluated: Result<bool, String>, collected: Vec<TaskVariable>) -> (r: Result<Vec<TaskVariable>, ErrorDefinition>)
        ensures
            evaluated is Ok ==> (r matches Ok(out) && out == collected),
            evaluated matches Err(text) ==> (r matches Err(e)
                && error_is(e, "Couldn't run script"@, Json::single("error"@, Json::Str(text@)))),
    {
        match evaluated {
            Ok(_) => Ok(collected),
            Err(text) => Err(ErrorDefinition::with_error("Couldn't run script", text)),
        }
    }

    /// What running a flow element's script gives, from the engine's answer
    /// and the scope as the script left it: whenever the script ran without
    /// error, whatever `bool` it gave, the variables that the scope holds for
    /// the element's `Out` arguments (every such argument, in the arguments'
    /// order); on an engine error, `Couldn't run script` with its text.
    pub fn script_outcome(&self, evaluated: Result<bool, String>, scope: &rhai::Scope, args: &Vec<FlowElementArgument>) -> (r: Result<Vec<TaskVariable>, ErrorDefinition>)
        ensures
            evaluated is Ok ==> (r matches Ok(out)
                && out@.map_values(|v: TaskVariable| v.name@) == present_out_names(args@, scope_names(*scope))
                && forall|k: int| 0 <= k < out@.len() ==> #[trigger] script_variable(out@[k])),
            evaluated is Ok ==> forall|i: int| 0 <= i < args@.len() && args@[i].direction == ArgumentDirection::Out
                && scope_names(*scope).contains(#[trigger] args@[i].name@)
                ==> (r matches Ok(out) && exists|k: int| 0 <= k < out@.len() && out@[k].name@ == args@[i].name@),
            r matches Ok(out) ==> forall|k: int| 0 <= k < out@.len() ==>
                #[trigger] out_names(args@).contains(out@[k].name@) && scope_names(*scope).contains(out@[k].name@),
            evaluated matches Err(text) ==> (r matches Err(e)
                && error_is(e, "Couldn't run script"@, Json::single("error"@, Json::Str(text@)))),
    {
        let collected = if evaluated.is_ok() {
            self.collect_out_variables(scope, args)
        } else {
            Vec::new()
        };
        proof {
            let names = scope_names(*scope);
            let kept = collected@.map_values(|v: TaskVariable| v.name@);
            lemma_present_out_names_are_out_names(args@, names);
            if evaluated is Ok {
                assert forall|i: int| 0 <= i < args@.len() && args@[i].direction == ArgumentDirection::Out
                    && names.contains(#[trigger] args@[i].name@)
                    implies exists|k: int| 0 <= k < collected@.len() && collected@[k].name@ == args@[i].name@ by {
                    lemma_present_out_names_complete(args@, names, i);
                    let k = choose|k: int| 0 <= k < kept.len() && kept[k] == args@[i].name@;
                    assert(kept[k] == collected@[k].name@);
                }
                assert forall|k: int| 0 <= k < collected@.len()
                    implies #[trigger] out_names(args@).contains(collected@[k].name@) && names.contains(collected@[k].name@) by {
                    assert(kept[k] == collected@[k].name@);
                    assert(present_out_names(args@, names).contains(collected@[k].name@));
                }
            }
        }
        self.script_result(evaluated, collected)
    }

    /// Runs a flow element's script with the task's variables. On success,
    /// the variables that the script left for the element's `Out` arguments;
    /// an engine error becomes `Couldn't run script` with the engine's text.
    pub fn evaluate_from_flow_element(&self, code: &str, vars: &Vec<TaskVariable>, args: &Vec<FlowElementArgument>) -> (r: Result<Vec<TaskVariable>, ErrorDefinition>)
        requires
            forall|i: int| 0 <= i < vars@.len() ==> #[trigger] engine_ready(vars@[i]),
        ensures
            r matches Ok(out) ==> forall|i: int| 0 <= i < out@.len() ==>
                #[trigger] out_names(args@).contains(out@[i].name@) && script_variable(out@[i]),
            r matches Err(e) ==> exists|text: Seq<char>|
                e@ == #[trigger] error_of("Couldn't run script"@, Json::single("error"@, Json::Str(text))),
    {
        let engine = new_engine();
        let mut scope = self.scope_of(vars);
        let evaluated = eval_bool(&engine, &mut scope, code);
        let ghost engine_result = evaluated;
        let r = self.script_outcome(evaluated, &scope, args);
        proof {
            if r is Ok {
                let out = r->Ok_0;
                assert forall|i: int| 0 <= i < out@.len() implies
                    #[trigger] out_names(args@).contains(out@[i].name@) && script_variable(out@[i]) by {
                    assert(out_names(args@).contains(out@[i].name@));
                }
            }
            if r is Err && engine_result is Err {
                let text = engine_result->Err_0;
                assert(r->Err_0@ == error_of("Couldn't run script"@, Json::single("error"@, Json::Str(text@))));
            }
        }
        r
    }
}

} // verus!
