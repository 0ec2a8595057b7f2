//! A task's variables as a script sees them.
use vstd::prelude::*;
use crate::adapters::models::worker::task_variable::{script_data_type, TaskVariable};
use crate::json::{str_equal, JsonValue};

verus! {

/// The variables without the first one called `name`.
pub open spec fn remove_first_named(vars: Seq<TaskVariable>, name: Seq<char>) -> Seq<TaskVariable>
    decreases vars.len(),
{
    if vars.len() == 0 {
        vars
    } else if vars[0].name@ == name {
        vars.drop_first()
    } else {
        seq![vars[0]] + remove_first_named(vars.drop_first(), name)
    }
}

proof fn lemma_remove_first_named(vars: Seq<TaskVariable>, name: Seq<char>, i: int)
    requires
        0 <= i < vars.len(),
        vars[i].name@ == name,
        forall|j: int| 0 <= j < i ==> #[trigger] vars[j].name@ != name,
    ensures
        remove_first_named(vars, name) == vars.remove(i),
    decreases i,
{
    if i > 0 {
        lemma_remove_first_named(vars.drop_first(), name, i - 1);
        assert(vars.remove(i) =~= seq![vars[0]] + vars.drop_first().remove(i - 1));
    } else {
        assert(vars.remove(0) =~= vars.drop_first());
    }
}

proof fn lemma_remove_none_named(vars: Seq<TaskVariable>, name: Seq<char>)
    requires
        forall|j: int| 0 <= j < vars.len() ==> #[trigger] vars[j].name@ != name,
    ensures
        remove_first_named(vars, name) == vars,
    decreases vars.len(),
{
    if vars.len() > 0 {
        lemma_remove_none_named(vars.drop_first(), name);
        assert(vars =~= seq![vars[0]] + vars.drop_first());
    }
}

/// The variables of a task, in order.
#[derive(Debug)]
pub struct Vars {
    vars: Vec<TaskVariable>,
}

/// `rhai::Dynamic::from` of a JSON value: the value a script reads for a
/// variable. Nothing is stated of the opaque result.
#[verifier::external_body]
fn dynamic_of_json(value: JsonValue) -> (r: rhai::Dynamic) {
    rhai::Dynamic::from(value)
}

impl Vars {
    pub closed spec fn variables(self) -> Seq<TaskVariable> {
        self.vars@
    }

    pub fn new() -> (r: Vars)
        ensures
            r.variables().len() == 0,
    {
        Vars { vars: Vec::new() }
    }

    /// Adds the given variables after those held.
    pub fn fill(&mut self, vars: Vec<TaskVariable>) -> (r: Result<(), String>)
        ensures
            r is Ok,
            final(self).variables() == old(self).variables() + vars@,
    {
        let mut vars = vars;
        self.vars.append(&mut vars);
        Ok(())
    }

    /// The index of the first variable called `name`, if any.
    fn position(&self, name: &String) -> (r: Option<usize>)
        ensures
            match r {
                Some(i) => i < self.vars@.len() && self.vars@[i as int].name@ == name@
                    && forall|j: int| 0 <= j < i ==> #[trigger] self.vars@[j].name@ != name@,
                None => forall|j: int| 0 <= j < self.vars@.len() ==> #[trigger] self.vars@[j].name@ != name@,
            },
    {
        let mut i: usize = 0;
        while i < self.vars.len()
            invariant
                i <= self.vars@.len(),
                forall|j: int| 0 <= j < i ==> #[trigger] self.vars@[j].name@ != name@,
            decreases self.vars@.len() - i,
        {
            if str_equal(self.vars[i].name.as_str(), name.as_str()) {
                return Some(i);
            }
            i = i + 1;
        }
        None
    }

    /// The value of the first variable called `name`, as a script value;
    /// `Err` when there is none.
    pub fn get(&self, name: String) -> (r: Result<rhai::Dynamic, ()>)
        ensures
            r is Ok <==> exists|i: int| 0 <= i < self.variables().len() && #[trigger] self.variables()[i].name@ == name@,
    {
        match self.position(&name) {
            None => Err(()),
            Some(i) => {
                assert(self.vars@[i as int].name@ == name@);
                Ok(dynamic_of_json(self.vars[i].value.deep_copy()))
            },
        }
    }

    /// Sets the variable `name` to the script value `value`: the first
    /// variable of that name, if any, is removed and the new one added last.
    pub fn put(&mut self, name: String, value: rhai::Dynamic) -> (r: Result<(), ()>)
        ensures
            r is Ok,
            final(self).variables() == remove_first_named(old(self).variables(), name@).push(final(self).variables().last()),
            final(self).variables().last().name == name,
            final(self).variables().last().id == 0,
            final(self).variables().last().data_type.id@ == final(self).variables().last().data_type.name@,
            script_data_type(final(self).variables().last().data_type.id@),
            final(self).variables().last().data_type.handler@ == Seq::<char>::empty(),
            final(self).variables().last().value@ is Str,
    {
        match self.position(&name) {
            Some(i) => {
                proof {
                    lemma_remove_first_named(self.vars@, name@, i as int);
                }
                self.vars.remove(i);
            },
            None => {
                proof {
                    lemma_remove_none_named(self.vars@, name@);
                }
            },
        }
        let v = TaskVariable::from_dynamic(name, value);
        self.vars.push(v);
        Ok(())
    }
}

/// Whether no two of the variables share a name.
pub open spec fn names_unique(vars: Seq<TaskVariable>) -> bool {
    forall|i: int, j: int| #![trigger vars[i], vars[j]] 0 <= i < j < vars.len() ==> vars[i].name@ != vars[j].name@
}

/// Setting a variable keeps the names of a task's variables unique, and
/// afterwards the variable of that name is the one just set: it is the last,
/// and no other has its name.
pub proof fn lemma_put_keeps_names_unique(before: Seq<TaskVariable>, name: Seq<char>, v: TaskVariable, after: Seq<TaskVariable>)
    requires
        names_unique(before),
        v.name@ == name,
        after == remove_first_named(before, name).push(v),
    ensures
        names_unique(after),
        after.last() == v,
        forall|j: int| 0 <= j < after.len() - 1 ==> #[trigger] after[j].name@ != name,
{
    let rest = remove_first_named(before, name);
    if exists|i: int| 0 <= i < before.len() && #[trigger] before[i].name@ == name {
        let i = choose|i: int| 0 <= i < before.len() && #[trigger] before[i].name@ == name;
        assert forall|j: int| 0 <= j < i implies #[trigger] before[j].name@ != name by {
            assert(before[j].name@ != before[i].name@);
        }
        lemma_remove_first_named(before, name, i);
        assert forall|j: int| 0 <= j < rest.len() implies #[trigger] rest[j].name@ != name by {
            if j < i {
                assert(rest[j] == before[j]);
                assert(before[j].name@ != before[i].name@);
            } else {
                assert(rest[j] == before[j + 1]);
                assert(before[i].name@ != before[j + 1].name@);
            }
        }
        assert forall|a: int, b: int| #![trigger rest[a], rest[b]] 0 <= a < b < rest.len() implies rest[a].name@ != rest[b].name@ by {
            let a0 = if a < i { a } else { a + 1 };
            let b0 = if b < i { b } else { b + 1 };
            assert(rest[a] == before[a0]);
            assert(rest[b] == before[b0]);
            assert(before[a0].name@ != before[b0].name@);
        }
    } else {
        lemma_remove_none_named(before, name);
        assert forall|j: int| 0 <= j < rest.len() implies #[trigger] rest[j].name@ != name by {
            assert(rest[j] == before[j]);
        }
    }
    assert forall|a: int, b: int| #![trigger after[a], after[b]] 0 <= a < b < after.len() implies after[a].name@ != after[b].name@ by {
        assert(after[a] == rest[a]);
        if b < rest.len() {
            assert(after[b] == rest[b]);
            assert(rest[a].name@ != rest[b].name@);
        } else {
            assert(rest[a].name@ != name);
        }
    }
    assert forall|j: int| 0 <= j < after.len() - 1 implies #[trigger] after[j].name@ != name by {
        assert(after[j] == rest[j]);
        assert(rest[j].name@ != name);
    }
}

} // verus!
