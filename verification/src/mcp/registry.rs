//! The registry of running servers: which names are taken, and by what.
//!
//! The registry is a map from a server's name to the resources held for it.
//! It does not look inside those resources, so it is generic in their type.
//! Callers that share a registry guard it with one lock; every operation
//! here is one critical section.

use vstd::prelude::*;
use crate::mcp::error::{kill_outcome_of, McpError, McpErrorView};

verus! {

/// Names and handles side by side: `names[i]` is registered with
/// `handles[i]`.
struct Table<H> {
    names: Vec<String>,
    handles: Vec<H>,
}

/// Registry of the running servers, keyed by name.
pub struct McpProcesses<H> {
    table: Table<H>,
}

impl<H> Table<H> {
    spec fn wf(self) -> bool {
        &&& self.names.len() == self.handles.len()
        &&& forall|i: int, j: int|
            0 <= i < j < self.names.len() ==> #[trigger] self.names[i]@
                != #[trigger] self.names[j]@
    }

    spec fn holds(self, name: Seq<char>) -> bool {
        exists|i: int| 0 <= i < self.names.len() && #[trigger] self.names[i]@ == name
    }

    spec fn slot_of(self, name: Seq<char>) -> int {
        choose|i: int| 0 <= i < self.names.len() && #[trigger] self.names[i]@ == name
    }

    spec fn as_map(self) -> Map<Seq<char>, H> {
        Map::new(
            |name: Seq<char>| self.holds(name),
            |name: Seq<char>| self.handles[self.slot_of(name)],
        )
    }

    /// In a sound table every slot is found again under its name.
    proof fn lemma_slot(self, i: int)
        requires
            self.wf(),
            0 <= i < self.names.len(),
        ensures
            self.as_map().contains_key(self.names[i]@),
            self.as_map()[self.names[i]@] == self.handles[i],
    {
        let at = self.slot_of(self.names[i]@);
        assert(at == i);
    }

    fn position(&self, name: &String) -> (r: Option<usize>)
        ensures
            match r {
                Some(i) => i < self.names.len() && self.names[i as int]@ == name@,
                None => !self.holds(name@),
            },
    {
        let mut i: usize = 0;
        while i < self.names.len()
            invariant
                i <= self.names.len(),
                forall|k: int| 0 <= k < i ==> self.names[k]@ != name@,
            decreases self.names.len() - i,
        {
            if self.names[i] == *name {
                return Some(i);
            }
            i = i + 1;
        }
        None
    }
}

impl<H> View for McpProcesses<H> {
    type V = Map<Seq<char>, H>;

    closed spec fn view(&self) -> Map<Seq<char>, H> {
        self.table.as_map()
    }
}

impl<H> McpProcesses<H> {
    #[verifier::type_invariant]
    spec fn sound(self) -> bool {
        self.table.wf()
    }

    /// A registry with no server in it.
    pub fn new() -> (r: Self)
        ensures
            r@ == Map::<Seq<char>, H>::empty(),
    {
        let r = McpProcesses { table: Table { names: Vec::new(), handles: Vec::new() } };
        assert(r@ =~= Map::<Seq<char>, H>::empty());
        r
    }

    /// Whether a server is registered under `name`.
    ///
    /// This is membership in the registry: a server that has exited on its
    /// own stays registered until it is unregistered.
    pub fn is_running(&self, name: &str) -> (r: bool)
        ensures
            r == self@.contains_key(name@),
    {
        let key = name.to_owned();
        self.table.position(&key).is_some()
    }

    /// Registers `handle` under `name`. A handle that was registered under
    /// the same name before is displaced and handed back, so that the
    /// caller can stop the server it stands for.
    pub fn register(&mut self, name: String, handle: H) -> (displaced: Option<H>)
        ensures
            final(self)@ == old(self)@.insert(name@, handle),
            displaced == if old(self)@.contains_key(name@) {
                Some(old(self)@[name@])
            } else {
                None::<H>
            },
    {
        proof {
            use_type_invariant(&*self);
        }
        let mut table = Table { names: Vec::new(), handles: Vec::new() };
        core::mem::swap(&mut self.table, &mut table);
        let ghost before = table;
        let found = table.position(&name);
        let displaced = match found {
            Some(i) => {
                proof {
                    before.lemma_slot(i as int);
                }
                table.names.remove(i);
                Some(table.handles.remove(i))
            },
            None => None,
        };
        table.names.push(name);
        table.handles.push(handle);
        proof {
            let last = table.names.len() - 1;
            assert(table.names[last]@ == name@);
            assert(table.wf());
            assert forall|key: Seq<char>|
                table.as_map().contains_key(key) <==> before.as_map().insert(
                    name@,
                    handle,
                ).contains_key(key) by {
                if table.as_map().contains_key(key) {
                    let j = table.slot_of(key);
                    if key != name@ {
                        if found is Some && j >= found->0 {
                            assert(before.names[j + 1]@ == key);
                        } else {
                            assert(before.names[j]@ == key);
                        }
                    }
                }
                if before.as_map().contains_key(key) && key != name@ {
                    let j = before.slot_of(key);
                    if found is Some && j > found->0 {
                        assert(table.names[j - 1]@ == key);
                    } else {
                        assert(table.names[j]@ == key);
                    }
                }
            }
            assert forall|key: Seq<char>| #[trigger]
                table.as_map().contains_key(key) implies table.as_map()[key]
                == before.as_map().insert(name@, handle)[key] by {
                let j = table.slot_of(key);
                table.lemma_slot(j);
                if key == name@ {
                    table.lemma_slot(last);
                } else {
                    if found is Some && j >= found->0 {
                        before.lemma_slot(j + 1);
                    } else {
                        before.lemma_slot(j);
                    }
                }
            }
            assert(table.as_map() =~= before.as_map().insert(name@, handle));
        }
        self.table = table;
        displaced
    }

    /// The handle registered under `name`, for writing to its server.
    /// Fails with `NotFound` when no server is registered under `name`.
    pub fn handle_mut(&mut self, name: &str) -> (r: Result<&mut H, McpError>)
        ensures
            match r {
                Ok(handle) => old(self)@.contains_key(name@) && *handle == old(self)@[name@]
                    && final(self)@ == old(self)@.insert(name@, *final(handle)),
                Err(e) => !old(self)@.contains_key(name@) && final(self)@ == old(self)@ && e@
                    == McpErrorView::NotFound(name@),
            },
    {
        let key = name.to_owned();
        proof {
            use_type_invariant(&*self);
        }
        match self.table.position(&key) {
            Some(i) => Ok(&mut self.table.handles[i]),
            None => Err(McpError::NotFound(key)),
        }
    }

    /// Takes the server registered under `name` out of the registry and
    /// hands back its handle. Does nothing when no server is registered
    /// under `name`.
    pub fn unregister(&mut self, name: &str) -> (removed: Option<H>)
        ensures
            final(self)@ == old(self)@.remove(name@),
            removed == if old(self)@.contains_key(name@) {
                Some(old(self)@[name@])
            } else {
                None::<H>
            },
    {
        proof {
            use_type_invariant(&*self);
        }
        let key = name.to_owned();
        let mut table = Table { names: Vec::new(), handles: Vec::new() };
        core::mem::swap(&mut self.table, &mut table);
        let ghost before = table;
        let found = table.position(&key);
        let removed = match found {
            Some(i) => {
                proof {
                    before.lemma_slot(i as int);
                }
                table.names.remove(i);
                let handle = table.handles.remove(i);
                proof {
                    assert(table.wf());
                    assert forall|k: Seq<char>|
                        table.as_map().contains_key(k) <==> before.as_map().remove(
                            name@,
                        ).contains_key(k) by {
                        if table.as_map().contains_key(k) {
                            let j = table.slot_of(k);
                            if j >= i {
                                assert(before.names[j + 1]@ == k);
                            } else {
                                assert(before.names[j]@ == k);
                            }
                        }
                        if before.as_map().contains_key(k) && k != name@ {
                            let j = before.slot_of(k);
                            if j > i {
                                assert(table.names[j - 1]@ == k);
                            } else {
                                assert(table.names[j]@ == k);
                            }
                        }
                    }
                    assert forall|k: Seq<char>| #[trigger]
                        table.as_map().contains_key(k) implies table.as_map()[k]
                        == before.as_map().remove(name@)[k] by {
                        let j = table.slot_of(k);
                        table.lemma_slot(j);
                        if j >= i {
                            before.lemma_slot(j + 1);
                        } else {
                            before.lemma_slot(j);
                        }
                    }
                    assert(table.as_map() =~= before.as_map().remove(name@));
                }
                Some(handle)
            },
            None => {
                assert(table.as_map() =~= before.as_map().remove(name@));
                None
            },
        };
        self.table = table;
        removed
    }
}

/// A server is running from the moment it is registered, and no longer
/// once it is unregistered.
pub proof fn lemma_running_until_unregistered<H>(
    registry: Map<Seq<char>, H>,
    name: Seq<char>,
    handle: H,
)
    ensures
        registry.insert(name, handle).contains_key(name),
        !registry.insert(name, handle).remove(name).contains_key(name),
{
}

/// Killing under a name that is not registered succeeds and leaves the
/// registry as it was, however often it is done: unregistering finds
/// nothing, and with nothing to stop there is nothing that can fail.
pub proof fn lemma_kill_of_unknown_name_succeeds<H>(registry: Map<Seq<char>, H>, name: Seq<char>)
    requires
        !registry.contains_key(name),
    ensures
        registry.remove(name) == registry,
        registry.remove(name).remove(name) == registry,
        kill_outcome_of(None) is Ok,
{
    assert(registry.remove(name) =~= registry);
}

/// Registrations under different names do not disturb each other: in
/// whichever order the two take effect, the registry ends up the same, both
/// servers are running, and each name leads to its own handle.
pub proof fn lemma_registrations_are_independent<H>(
    registry: Map<Seq<char>, H>,
    first: Seq<char>,
    first_handle: H,
    second: Seq<char>,
    second_handle: H,
)
    requires
        first != second,
    ensures
        registry.insert(first, first_handle).insert(second, second_handle) == registry.insert(
            second,
            second_handle,
        ).insert(first, first_handle),
        registry.insert(first, first_handle).insert(second, second_handle).contains_key(first),
        registry.insert(first, first_handle).insert(second, second_handle).contains_key(second),
        registry.insert(first, first_handle).insert(second, second_handle)[first] == first_handle,
        registry.insert(first, first_handle).insert(second, second_handle)[second]
            == second_handle,
{
    assert(registry.insert(first, first_handle).insert(second, second_handle) =~= registry.insert(
        second,
        second_handle,
    ).insert(first, first_handle));
}

/// A name that is registered again after its server was unregistered leads
/// to the new handle, not to the old one.
pub proof fn lemma_reregistered_name_leads_to_new_handle<H>(
    registry: Map<Seq<char>, H>,
    name: Seq<char>,
    old_handle: H,
    new_handle: H,
)
    ensures
        registry.insert(name, old_handle).remove(name).insert(name, new_handle).contains_key(
            name,
        ),
        registry.insert(name, old_handle).remove(name).insert(name, new_handle)[name]
            == new_handle,
{
}

impl<H> Default for McpProcesses<H> {
    fn default() -> (r: Self)
        ensures
            r@ == Map::<Seq<char>, H>::empty(),
    {
        McpProcesses::new()
    }
}

} // verus!
