use crate::project::Project;
use std::collections::HashMap;
use vstd::std_specs::hash::spec_keys_iter;
use vstd::std_specs::iter::IteratorSpec;
use vstd::prelude::*;

verus! {

broadcast use vstd::std_specs::hash::group_hash_axioms;

/// `s` is a listing of `m`: each record of `m` once, in some order.
pub open spec fn lists(m: Map<i32, Project>, s: Seq<Project>) -> bool {
    &&& s.len() == m.dom().len()
    &&& forall|i: int| 0 <= i < s.len() ==> #[trigger] m.contains_key(s[i].id) && m[s[i].id] == s[i]
    &&& forall|i: int, j: int| 0 <= i < j < s.len() ==> s[i].id != s[j].id
    &&& forall|k: i32| #[trigger] m.contains_key(k) ==> exists|i: int| 0 <= i < s.len() && s[i].id == k
}

/// What a lookup of `id` in `m` gives.
pub open spec fn lookup(m: Map<i32, Project>, id: i32) -> Option<Project> {
    if m.contains_key(id) {
        Some(m[id])
    } else {
        None
    }
}

/// The records of a store, keyed by their identifiers.
pub struct Store {
    projects: HashMap<i32, Project>,
}

impl View for Store {
    type V = Map<i32, Project>;

    closed spec fn view(&self) -> Map<i32, Project> {
        self.projects@
    }
}

impl Store {
    /// Each record is held under its own identifier.
    pub open spec fn wf(&self) -> bool {
        forall|k: i32| #[trigger] self@.contains_key(k) ==> self@[k].id == k
    }

    /// An empty store.
    pub fn new() -> (s: Store)
        ensures
            s.wf(),
            s@ == Map::<i32, Project>::empty(),
    {
        Store { projects: HashMap::new() }
    }

    /// Puts `project` under its identifier; a record held there before is
    /// replaced and handed back.
    pub fn insert(&mut self, project: Project) -> (r: Option<Project>)
        requires
            old(self).wf(),
        ensures
            final(self).wf(),
            final(self)@ == old(self)@.insert(project.id, project),
            r == lookup(old(self)@, project.id),
    {
        let id = project.id;
        self.projects.insert(id, project)
    }

    /// The record held under `id`, if there is one.
    pub fn get(&self, id: i32) -> (r: Option<Project>)
        ensures
            r == lookup(self@, id),
    {
        match self.projects.get(&id) {
            Some(p) => Some(p.clone()),
            None => None,
        }
    }

    /// A copy of every record, in no particular order.
    pub fn list(&self) -> (r: Vec<Project>)
        requires
            self.wf(),
        ensures
            lists(self@, r@),
    {
        let mut out: Vec<Project> = Vec::new();
        let ghost ks: Seq<i32> = spec_keys_iter(&self.projects).remaining().unref();
        for k in it: self.projects.keys()
            invariant
                it.seq().unref() == ks,
                self.wf(),
                ks.to_set() == self@.dom(),
                ks.no_duplicates(),
                ks.len() == self@.dom().len(),
                out.len() == it.index(),
                forall|i: int| 0 <= i < out.len() ==> out[i] == self@[ks[i]],
                forall|i: int| 0 <= i < out.len() ==> #[trigger] self@.contains_key(ks[i]),
        {
            let p = self.projects.get(k).unwrap();
            out.push(p.clone());
        }
        proof {
            let m = self@;
            assert forall|i: int| 0 <= i < out.len() implies out[i].id == ks[i] && m.contains_key(
                out[i].id,
            ) && m[out[i].id] == out[i] by {
                assert(m.contains_key(ks[i]));
            }
            assert forall|k: i32| #[trigger] m.contains_key(k) implies exists|i: int|
                0 <= i < out.len() && out@[i].id == k by {
                assert(ks.to_set().contains(k));
                let i = choose|i: int| 0 <= i < ks.len() && ks[i] == k;
                assert(out@[i].id == ks[i]);
            }
        }
        out
    }
}

/// A record put into a store is what a lookup of its identifier gives back,
/// equal in every field.
pub proof fn inserted_is_found(s: Store, p: Project)
    requires
        s.wf(),
    ensures
        lookup(s@.insert(p.id, p), p.id) == Some(p),
{
}

/// Listing an empty store gives no record.
pub proof fn empty_lists_nothing(s: Seq<Project>)
    requires
        lists(Map::<i32, Project>::empty(), s),
    ensures
        s.len() == 0,
{
}

/// Two records with distinct identifiers put into an empty store are listed
/// once each, and nothing else is.
pub proof fn two_inserted_both_listed(a: Project, b: Project, s: Seq<Project>)
    requires
        a.id != b.id,
        lists(Map::<i32, Project>::empty().insert(a.id, a).insert(b.id, b), s),
    ensures
        s.len() == 2,
        s.to_set() == set![a, b],
{
    let m = Map::<i32, Project>::empty().insert(a.id, a).insert(b.id, b);
    assert(m.dom() =~= set![a.id, b.id]);
    assert(m.contains_key(a.id));
    assert(m.contains_key(b.id));
    let i = choose|i: int| 0 <= i < s.len() && s[i].id == a.id;
    let j = choose|j: int| 0 <= j < s.len() && s[j].id == b.id;
    assert(s[i] == a);
    assert(s[j] == b);
    assert forall|x: Project| s.to_set().contains(x) implies set![a, b].contains(x) by {
        let k = choose|k: int| 0 <= k < s.len() && s[k] == x;
        assert(m.contains_key(s[k].id));
    }
    assert(s.to_set() =~= set![a, b]);
}

} // verus!
