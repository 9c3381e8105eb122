use crate::project::Project;
use crate::store::{lists, lookup, Store};
use vstd::prelude::*;
use vstd::rwlock::RwLock;

verus! {

/// A store that many request handlers read at once. Every operation takes
/// the lock's exclusive side for its own duration only, so one lock orders
/// all access, reads and any later writes alike. The records are fixed when
/// the store is shared, and the lock's invariant holds them to that.
pub struct SharedStore {
    lock: RwLock<Store, spec_fn(Store) -> bool>,
    contents: Ghost<Map<i32, Project>>,
}

impl SharedStore {
    #[verifier::type_invariant]
    spec fn holds_contents(&self) -> bool {
        self.lock.pred() == (|s: Store| s.wf() && s@ == self.contents@)
    }

    /// The records that the store holds, keyed by identifier.
    pub closed spec fn contents(&self) -> Map<i32, Project> {
        self.contents@
    }

    /// Shares `store`; from here on it is reached only through the lock.
    pub fn new(store: Store) -> (r: SharedStore)
        requires
            store.wf(),
        ensures
            r.contents() == store@,
    {
        let ghost m = store@;
        let ghost pred = |s: Store| s.wf() && s@ == m;
        let lock = RwLock::new(store, Ghost(pred));
        SharedStore { lock, contents: Ghost(m) }
    }

    /// The record held under `id`, if there is one.
    pub fn get(&self, id: i32) -> (r: Option<Project>)
        ensures
            r == lookup(self.contents(), id),
    {
        proof {
            use_type_invariant(self);
        }
        let (store, handle) = self.lock.acquire_write();
        let r = store.get(id);
        handle.release_write(store);
        r
    }

    /// A copy of every record, in no particular order.
    pub fn list(&self) -> (r: Vec<Project>)
        ensures
            lists(self.contents(), r@),
    {
        proof {
            use_type_invariant(self);
        }
        let (store, handle) = self.lock.acquire_write();
        let r = store.list();
        handle.release_write(store);
        r
    }
}

} // verus!
