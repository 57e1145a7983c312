//! What a caller supplies to start a server.

use vstd::prelude::*;

verus! {

/// Environment variables for a server, each name set once.
///
/// The variables keep the order in which their names were first set;
/// setting a name again replaces its value in place.
#[derive(Debug)]
pub struct EnvVars {
    entries: Vec<(String, String)>,
}

/// Whether `vars` sets `name`.
pub open spec fn defines(vars: Seq<(Seq<char>, Seq<char>)>, name: Seq<char>) -> bool {
    exists|i: int| 0 <= i < vars.len() && (#[trigger] vars[i]).0 == name
}

/// Where `vars` sets `name`, for a name that it sets.
pub open spec fn position_of(vars: Seq<(Seq<char>, Seq<char>)>, name: Seq<char>) -> int {
    choose|i: int| 0 <= i < vars.len() && (#[trigger] vars[i]).0 == name
}

/// No name is set twice in `vars`.
pub open spec fn names_distinct(vars: Seq<(Seq<char>, Seq<char>)>) -> bool {
    forall|i: int, j: int|
        0 <= i < j < vars.len() ==> (#[trigger] vars[i]).0 != (#[trigger] vars[j]).0
}

/// `vars` after setting `name` to `value`: a known name keeps its place and
/// takes the new value, a new name goes to the end.
pub open spec fn with_var(
    vars: Seq<(Seq<char>, Seq<char>)>,
    name: Seq<char>,
    value: Seq<char>,
) -> Seq<(Seq<char>, Seq<char>)> {
    if defines(vars, name) {
        vars.update(position_of(vars, name), (name, value))
    } else {
        vars.push((name, value))
    }
}

/// Setting a variable never makes a name occur twice.
pub proof fn lemma_with_var_keeps_names_distinct(
    vars: Seq<(Seq<char>, Seq<char>)>,
    name: Seq<char>,
    value: Seq<char>,
)
    requires
        names_distinct(vars),
    ensures
        names_distinct(with_var(vars, name, value)),
        defines(with_var(vars, name, value), name),
{
    let after = with_var(vars, name, value);
    if defines(vars, name) {
        let at = position_of(vars, name);
        assert(after[at].0 == name);
    } else {
        assert(after[vars.len() as int].0 == name);
    }
}

/// Pairs of a name and a value, each text taken by its view.
pub open spec fn pairs_view(pairs: Seq<(String, String)>) -> Seq<(Seq<char>, Seq<char>)> {
    Seq::new(pairs.len(), |i: int| (pairs[i].0@, pairs[i].1@))
}

fn find_name(entries: &Vec<(String, String)>, name: &String) -> (r: Option<usize>)
    ensures
        match r {
            Some(i) => i < entries.len() && entries[i as int].0@ == name@,
            None => !defines(pairs_view(entries@), name@),
        },
{
    let mut i: usize = 0;
    while i < entries.len()
        invariant
            i <= entries.len(),
            forall|k: int| 0 <= k < i ==> entries[k].0@ != name@,
        decreases entries.len() - i,
    {
        if entries[i].0 == *name {
            return Some(i);
        }
        i = i + 1;
    }
    assert forall|k: int| 0 <= k < entries.len() implies (#[trigger] pairs_view(
        entries@,
    )[k]).0 != name@ by {
        assert(entries[k].0@ != name@);
    }
    None
}

impl View for EnvVars {
    type V = Seq<(Seq<char>, Seq<char>)>;

    closed spec fn view(&self) -> Seq<(Seq<char>, Seq<char>)> {
        pairs_view(self.entries@)
    }
}

impl EnvVars {
    #[verifier::type_invariant]
    spec fn names_once(self) -> bool {
        names_distinct(pairs_view(self.entries@))
    }

    /// No variables.
    pub fn new() -> (r: Self)
        ensures
            r@ == Seq::<(Seq<char>, Seq<char>)>::empty(),
    {
        let r = EnvVars { entries: Vec::new() };
        assert(r@ =~= Seq::<(Seq<char>, Seq<char>)>::empty());
        r
    }

    /// Number of variables.
    pub fn len(&self) -> (r: usize)
        ensures
            r == self@.len(),
            names_distinct(self@),
    {
        proof {
            use_type_invariant(self);
        }
        self.entries.len()
    }

    /// Name of the variable at `index`.
    pub(crate) fn name_at(&self, index: usize) -> (r: &String)
        requires
            index < self@.len(),
        ensures
            r@ == self@[index as int].0,
    {
        &self.entries[index].0
    }

    /// Value of the variable at `index`.
    pub(crate) fn value_at(&self, index: usize) -> (r: &String)
        requires
            index < self@.len(),
        ensures
            r@ == self@[index as int].1,
    {
        &self.entries[index].1
    }

    /// The variables as pairs of a name and a value, in their order.
    pub fn pairs(&self) -> (r: Vec<(String, String)>)
        ensures
            pairs_view(r@) == self@,
    {
        let mut pairs: Vec<(String, String)> = Vec::new();
        let mut i: usize = 0;
        while i < self.entries.len()
            invariant
                i <= self.entries.len(),
                pairs.len() == i,
                forall|k: int|
                    0 <= k < i ==> (#[trigger] pairs[k]).0@ == self.entries[k].0@ && pairs[k].1@
                        == self.entries[k].1@,
            decreases self.entries.len() - i,
        {
            pairs.push((self.entries[i].0.clone(), self.entries[i].1.clone()));
            i = i + 1;
        }
        assert(pairs_view(pairs@) =~= pairs_view(self.entries@));
        pairs
    }

    /// Sets `name` to `value`.
    pub fn insert(&mut self, name: String, value: String)
        ensures
            final(self)@ == with_var(old(self)@, name@, value@),
    {
        proof {
            use_type_invariant(&*self);
        }
        let mut entries: Vec<(String, String)> = Vec::new();
        core::mem::swap(&mut self.entries, &mut entries);
        let ghost before = pairs_view(entries@);
        let found = find_name(&entries, &name);
        proof {
            lemma_with_var_keeps_names_distinct(before, name@, value@);
        }
        match found {
            Some(i) => {
                assert(before[i as int].0 == name@);
                let ghost at = position_of(before, name@);
                assert(at == i);
                entries.set(i, (name, value));
                assert(pairs_view(entries@) =~= with_var(before, name@, value@));
            },
            None => {
                entries.push((name, value));
                assert(pairs_view(entries@) =~= with_var(before, name@, value@));
            },
        }
        self.entries = entries;
    }

    /// The value that `name` is set to, if it is set.
    pub fn get(&self, name: &str) -> (r: Option<&String>)
        ensures
            r is Some <==> defines(self@, name@),
            r matches Some(value) ==> value@ == self@[position_of(self@, name@)].1,
    {
        proof {
            use_type_invariant(self);
        }
        let key = name.to_owned();
        match find_name(&self.entries, &key) {
            Some(i) => {
                assert(self@[i as int].0 == name@);
                let ghost at = position_of(self@, name@);
                assert(at == i);
                Some(&self.entries[i].1)
            },
            None => None,
        }
    }
}

impl Clone for EnvVars {
    fn clone(&self) -> (r: Self)
        ensures
            r@ == self@,
    {
        proof {
            use_type_invariant(self);
        }
        EnvVars { entries: self.pairs() }
    }
}

/// How to start one server: the name to register it under, the command to
/// run with its arguments, and the variables to export to it.
#[derive(Debug, Clone)]
pub struct McpServerConfig {
    pub id: String,
    pub command: String,
    pub args: Vec<String>,
    pub env: Option<EnvVars>,
}

/// A configuration with its texts taken by their views.
pub struct McpServerConfigView {
    pub id: Seq<char>,
    pub command: Seq<char>,
    pub args: Seq<Seq<char>>,
    pub env: Option<Seq<(Seq<char>, Seq<char>)>>,
}

impl View for McpServerConfig {
    type V = McpServerConfigView;

    open spec fn view(&self) -> McpServerConfigView {
        McpServerConfigView {
            id: self.id@,
            command: self.command@,
            args: self.args.deep_view(),
            env: match self.env {
                Some(vars) => Some(vars@),
                None => None,
            },
        }
    }
}

} // verus!
