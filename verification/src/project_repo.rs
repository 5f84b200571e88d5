//! Storage facade for project records: a thin layer over one record store,
//! with no business rules. Its abstract state is the store's map, and every
//! stored record is keyed by its own identifier.

use vstd::prelude::*;
use crate::project::Project;
use crate::store::Store;

verus! {

#[derive(Debug)]
pub struct ProjectRepository {
    store: Store<Project>,
}

impl View for ProjectRepository {
    type V = Map<u128, Project>;

    closed spec fn view(&self) -> Map<u128, Project> {
        self.store@
    }
}

impl ProjectRepository {
    #[verifier::type_invariant]
    spec fn inv(self) -> bool {
        forall|k: u128| #[trigger] self.store@.contains_key(k) ==> self.store@[k].id == k
    }

    /// An empty repository.
    pub fn new() -> (r: Self)
        ensures
            r@ == Map::<u128, Project>::empty(),
    {
        ProjectRepository { store: Store::new() }
    }

    /// Unconditionally inserts or overwrites the record under its own
    /// identifier and hands it back.
    pub fn create(&mut self, project: Project) -> (r: Result<Project, String>)
        ensures
            final(self)@ == old(self)@.insert(project.id, project),
            r == Ok::<Project, String>(project),
    {
        proof {
            use_type_invariant(&*self);
        }
        let id = project.id;
        let stored = project.clone();
        let mut store = Store::new();
        core::mem::swap(&mut self.store, &mut store);
        store.put(id, stored);
        self.store = store;
        Ok(project)
    }

    /// Point lookup; absence is a value, not an error.
    pub fn find_by_id(&self, id: u128) -> (r: Result<Option<Project>, String>)
        ensures
            match r {
                Ok(Some(p)) => self@.contains_key(id) && p == self@[id] && p.id == id,
                Ok(None) => !self@.contains_key(id),
                Err(_) => false,
            },
    {
        proof {
            use_type_invariant(&*self);
        }
        match self.store.get(id) {
            Some(p) => Ok(Some(p.clone())),
            None => Ok(None),
        }
    }

    /// A snapshot of all records: every stored record exactly once, in
    /// unspecified order.
    pub fn find_all(&self) -> (r: Result<Vec<Project>, String>)
        ensures
            match r {
                Ok(v) => {
                    &&& v@.len() == self@.len()
                    &&& forall|i: int|
                        0 <= i < v@.len() ==> self@.contains_key((#[trigger] v@[i]).id)
                            && self@[v@[i].id] == v@[i]
                    &&& forall|i: int, j: int|
                        0 <= i < j < v@.len() ==> (#[trigger] v@[i]).id != (#[trigger] v@[j]).id
                    &&& forall|k: u128| #[trigger] self@.contains_key(k)
                        ==> exists|i: int| 0 <= i < v@.len() && (#[trigger] v@[i]).id == k
                },
                Err(_) => false,
            },
    {
        proof {
            use_type_invariant(&*self);
        }
        let keys = self.store.keys();
        let n = keys.len();
        let mut out: Vec<Project> = Vec::new();
        let mut i: usize = 0;
        while i < n
            invariant
                n == keys@.len(),
                i <= n,
                out@.len() == i,
                keys@.no_duplicates(),
                forall|k: u128| #[trigger] keys@.contains(k) <==> self@.contains_key(k),
                keys@.len() == self@.len(),
                forall|k: u128| #[trigger] self@.contains_key(k) ==> self@[k].id == k,
                forall|j: int| 0 <= j < i ==> (#[trigger] out@[j]) == self@[keys@[j]],
            decreases n - i,
        {
            let k = keys[i];
            proof {
                assert(keys@.contains(k));
            }
            let p = match self.store.get(k) {
                Some(p) => p,
                None => vstd::pervasive::unreached(),
            };
            out.push(p.clone());
            i += 1;
        }
        proof {
            assert forall|j: int| 0 <= j < out@.len() implies
                self@.contains_key((#[trigger] out@[j]).id) && self@[out@[j].id] == out@[j] by {
                assert(out@[j] == self@[keys@[j]]);
                assert(keys@.contains(keys@[j]));
                assert(self@[keys@[j]].id == keys@[j]);
            };
            assert forall|a: int, b: int| 0 <= a < b < out@.len() implies
                (#[trigger] out@[a]).id != (#[trigger] out@[b]).id by {
                assert(keys@.contains(keys@[a]));
                assert(keys@.contains(keys@[b]));
                assert(out@[a].id == keys@[a] && out@[b].id == keys@[b]);
            };
            assert forall|k: u128| #[trigger] self@.contains_key(k) implies
                exists|i2: int| 0 <= i2 < out@.len() && (#[trigger] out@[i2]).id == k by {
                assert(keys@.contains(k));
                let j = choose|j: int| 0 <= j < keys@.len() && keys@[j] == k;
                assert(out@[j].id == k);
            };
        }
        Ok(out)
    }

    /// Overwrites the record under `id` only if one is already there; hands
    /// back the new record on success, absence otherwise.
    pub fn update(&mut self, id: u128, updated: Project) -> (r: Result<Option<Project>, String>)
        requires
            updated.id == id,
        ensures
            old(self)@.contains_key(id) ==> final(self)@ == old(self)@.insert(id, updated)
                && r == Ok::<Option<Project>, String>(Some(updated)),
            !old(self)@.contains_key(id) ==> final(self)@ == old(self)@
                && r == Ok::<Option<Project>, String>(None),
    {
        proof {
            use_type_invariant(&*self);
        }
        let stored = updated.clone();
        let mut store = Store::new();
        core::mem::swap(&mut self.store, &mut store);
        let present = store.replace_if_present(id, stored);
        self.store = store;
        if present {
            Ok(Some(updated))
        } else {
            Ok(None)
        }
    }

    /// Removes the record under `id` if present; reports whether removal
    /// occurred.
    pub fn delete(&mut self, id: u128) -> (r: Result<bool, String>)
        ensures
            r == Ok::<bool, String>(old(self)@.contains_key(id)),
            final(self)@ == old(self)@.remove(id),
    {
        proof {
            use_type_invariant(&*self);
        }
        let mut store = Store::new();
        core::mem::swap(&mut self.store, &mut store);
        let removed = store.remove(id);
        self.store = store;
        Ok(removed)
    }
}

impl Default for ProjectRepository {
    fn default() -> (r: Self)
        ensures
            r@ == Map::<u128, Project>::empty(),
    {
        ProjectRepository::new()
    }
}

} // verus!
