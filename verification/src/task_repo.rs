//! Storage facade for task records: a thin layer over one record store,
//! plus the two operations that scan or sweep by the owning-project
//! identifier. The bulk removal backs cascade delete: it takes out every
//! matching task in one sweep, so no caller observes a partial removal.

use vstd::prelude::*;
use crate::store::Store;
use crate::task::Task;

verus! {

#[derive(Debug)]
pub struct TaskRepository {
    store: Store<Task>,
}

impl View for TaskRepository {
    type V = Map<u128, Task>;

    closed spec fn view(&self) -> Map<u128, Task> {
        self.store@
    }
}

impl TaskRepository {
    #[verifier::type_invariant]
    spec fn inv(self) -> bool {
        forall|k: u128| #[trigger] self.store@.contains_key(k) ==> self.store@[k].id == k
    }

    /// An empty repository.
    pub fn new() -> (r: Self)
        ensures
            r@ == Map::<u128, Task>::empty(),
    {
        TaskRepository { store: Store::new() }
    }

    /// Unconditionally inserts or overwrites the record under its own
    /// identifier and hands it back.
    pub fn create(&mut self, task: Task) -> (r: Result<Task, String>)
        ensures
            final(self)@ == old(self)@.insert(task.id, task),
            r == Ok::<Task, String>(task),
    {
        proof {
            use_type_invariant(&*self);
        }
        let id = task.id;
        let stored = task.clone();
        let mut store = Store::new();
        core::mem::swap(&mut self.store, &mut store);
        store.put(id, stored);
        self.store = store;
        Ok(task)
    }

    /// Point lookup; absence is a value, not an error.
    pub fn find_by_id(&self, id: u128) -> (r: Result<Option<Task>, String>)
        ensures
            match r {
                Ok(Some(t)) => self@.contains_key(id) && t == self@[id] && t.id == id,
                Ok(None) => !self@.contains_key(id),
                Err(_) => false,
            },
    {
        proof {
            use_type_invariant(&*self);
        }
        match self.store.get(id) {
            Some(t) => Ok(Some(t.clone())),
            None => Ok(None),
        }
    }

    /// A snapshot of all records: every stored record exactly once, in
    /// unspecified order.
    pub fn find_all(&self) -> (r: Result<Vec<Task>, String>)
        ensures
            match r {
                Ok(v) => {
                    &&& v@.len() == self@.len()
                    &&& forall|i: int|
                        0 <= i < v@.len() ==> self@.contains_key((#[trigger] v@[i]).id)
                            && self@[v@[i].id] == v@[i]
                    &&& forall|i: int, j: int|
                        0 <= i < j < v@.len() ==> (#[trigger] v@[i]).id != (#[trigger] v@[j]).id
                    &&& forall|k: u128| #[trigger] self@.contains_key(k)
                        ==> exists|i: int| 0 <= i < v@.len() && (#[trigger] v@[i]).id == k
                },
                Err(_) => false,
            },
    {
        proof {
            use_type_invariant(&*self);
        }
        let keys = self.store.keys();
        let n = keys.len();
        let mut out: Vec<Task> = Vec::new();
        let mut i: usize = 0;
        while i < n
            invariant
                n == keys@.len(),
                i <= n,
                out@.len() == i,
                keys@.no_duplicates(),
                forall|k: u128| #[trigger] keys@.contains(k) <==> self@.contains_key(k),
                keys@.len() == self@.len(),
                forall|k: u128| #[trigger] self@.contains_key(k) ==> self@[k].id == k,
                forall|j: int| 0 <= j < i ==> (#[trigger] out@[j]) == self@[keys@[j]],
            decreases n - i,
        {
            let k = keys[i];
            proof {
                assert(keys@.contains(k));
            }
            let t = match self.store.get(k) {
                Some(t) => t,
                None => vstd::pervasive::unreached(),
            };
            out.push(t.clone());
            i += 1;
        }
        proof {
            assert forall|j: int| 0 <= j < out@.len() implies
                self@.contains_key((#[trigger] out@[j]).id) && self@[out@[j].id] == out@[j] by {
                assert(out@[j] == self@[keys@[j]]);
                assert(keys@.contains(keys@[j]));
                assert(self@[keys@[j]].id == keys@[j]);
            };
            assert forall|a: int, b: int| 0 <= a < b < out@.len() implies
                (#[trigger] out@[a]).id != (#[trigger] out@[b]).id by {
                assert(keys@.contains(keys@[a]));
                assert(keys@.contains(keys@[b]));
                assert(out@[a].id == keys@[a] && out@[b].id == keys@[b]);
            };
            assert forall|k: u128| #[trigger] self@.contains_key(k) implies
                exists|i2: int| 0 <= i2 < out@.len() && (#[trigger] out@[i2]).id == k by {
                assert(keys@.contains(k));
                let j = choose|j: int| 0 <= j < keys@.len() && keys@[j] == k;
                assert(out@[j].id == k);
            };
        }
        Ok(out)
    }

    /// A snapshot of the tasks owned by one project: every matching record
    /// exactly once, in unspecified order; empty when none match.
    pub fn find_by_project_id(&self, project_id: u128) -> (r: Result<Vec<Task>, String>)
        ensures
            match r {
                Ok(v) => {
                    &&& forall|i: int|
                        0 <= i < v@.len() ==> self@.contains_key((#[trigger] v@[i]).id)
                            && self@[v@[i].id] == v@[i]
                            && v@[i].project_id == project_id
                    &&& forall|i: int, j: int|
                        0 <= i < j < v@.len() ==> (#[trigger] v@[i]).id != (#[trigger] v@[j]).id
                    &&& forall|k: u128|
                        #[trigger] self@.contains_key(k) && self@[k].project_id == project_id
                            ==> exists|i: int| 0 <= i < v@.len() && (#[trigger] v@[i]).id == k
                },
                Err(_) => false,
            },
    {
        proof {
            use_type_invariant(&*self);
        }
        let keys = self.store.keys();
        let n = keys.len();
        let mut out: Vec<Task> = Vec::new();
        let mut i: usize = 0;
        while i < n
            invariant
                n == keys@.len(),
                i <= n,
                keys@.no_duplicates(),
                forall|k: u128| #[trigger] keys@.contains(k) <==> self@.contains_key(k),
                forall|k: u128| #[trigger] self@.contains_key(k) ==> self@[k].id == k,
                forall|j: int| 0 <= j < out@.len() ==>
                    self@.contains_key((#[trigger] out@[j]).id)
                    && self@[out@[j].id] == out@[j]
                    && out@[j].project_id == project_id,
                forall|j1: int, j2: int| 0 <= j1 < j2 < out@.len()
                    ==> (#[trigger] out@[j1]).id != (#[trigger] out@[j2]).id,
                forall|j: int| 0 <= j < out@.len() ==>
                    exists|l: int| 0 <= l < i && keys@[l] == (#[trigger] out@[j]).id,
                forall|l: int| 0 <= l < i
                    && self@.contains_key(#[trigger] keys@[l])
                    && self@[keys@[l]].project_id == project_id
                    ==> exists|j: int| 0 <= j < out@.len() && (#[trigger] out@[j]).id == keys@[l],
            decreases n - i,
        {
            let k = keys[i];
            proof {
                assert(keys@.contains(k));
            }
            let t = match self.store.get(k) {
                Some(t) => t,
                None => vstd::pervasive::unreached(),
            };
            let ghost out_pre = out@;
            let matched = t.project_id == project_id;
            if matched {
                out.push(t.clone());
            }
            proof {
                if matched {
                    assert(out@ == out_pre.push(self@[k]));
                    assert(forall|j: int| 0 <= j < out_pre.len() ==> out@[j] == (#[trigger] out_pre[j]));
                    assert(out@[out_pre.len() as int] == self@[k]);
                    assert(out@[out_pre.len() as int].id == k);
                    assert(keys@[i as int] == k);
                    assert forall|j1: int, j2: int| 0 <= j1 < j2 < out@.len() implies
                        (#[trigger] out@[j1]).id != (#[trigger] out@[j2]).id by {
                        if j2 == out_pre.len() {
                            assert(out@[j1] == out_pre[j1]);
                            let l = choose|l: int| 0 <= l < i && keys@[l] == out_pre[j1].id;
                            assert(keys@[l] != keys@[i as int]);
                        } else {
                            assert(out@[j1] == out_pre[j1] && out@[j2] == out_pre[j2]);
                        }
                    };
                    assert forall|j: int| 0 <= j < out@.len() implies
                        exists|l: int| 0 <= l <= i && keys@[l] == (#[trigger] out@[j]).id by {
                        if j == out_pre.len() {
                            assert(keys@[i as int] == out@[j].id);
                        } else {
                            assert(out@[j] == out_pre[j]);
                            let l = choose|l: int| 0 <= l < i && keys@[l] == out_pre[j].id;
                            assert(keys@[l] == out@[j].id);
                        }
                    };
                }
                assert forall|l: int| 0 <= l <= i
                    && self@.contains_key(#[trigger] keys@[l])
                    && self@[keys@[l]].project_id == project_id implies
                    exists|j: int| 0 <= j < out@.len() && (#[trigger] out@[j]).id == keys@[l] by {
                    if l == i {
                        assert(matched);
                        assert(out@[out_pre.len() as int].id == k);
                    } else {
                        let j = choose|j: int| 0 <= j < out_pre.len() && (#[trigger] out_pre[j]).id == keys@[l];
                        if matched {
                            assert(out@[j] == out_pre[j]);
                        }
                        assert(out@[j].id == keys@[l]);
                    }
                };
            }
            i += 1;
        }
        proof {
            assert forall|k: u128|
                #[trigger] self@.contains_key(k) && self@[k].project_id == project_id implies
                exists|i2: int| 0 <= i2 < out@.len() && (#[trigger] out@[i2]).id == k by {
                assert(keys@.contains(k));
                let l = choose|l: int| 0 <= l < keys@.len() && keys@[l] == k;
                assert(self@.contains_key(keys@[l]) && self@[keys@[l]].project_id == project_id);
            };
        }
        Ok(out)
    }

    /// Overwrites the record under `id` only if one is already there; hands
    /// back the new record on success, absence otherwise.
    pub fn update(&mut self, id: u128, updated: Task) -> (r: Result<Option<Task>, String>)
        requires
            updated.id == id,
        ensures
            old(self)@.contains_key(id) ==> final(self)@ == old(self)@.insert(id, updated)
                && r == Ok::<Option<Task>, String>(Some(updated)),
            !old(self)@.contains_key(id) ==> final(self)@ == old(self)@
                && r == Ok::<Option<Task>, String>(None),
    {
        proof {
            use_type_invariant(&*self);
        }
        let stored = updated.clone();
        let mut store = Store::new();
        core::mem::swap(&mut self.store, &mut store);
        let present = store.replace_if_present(id, stored);
        self.store = store;
        if present {
            Ok(Some(updated))
        } else {
            Ok(None)
        }
    }

    /// Removes the record under `id` if present; reports whether removal
    /// occurred.
    pub fn delete(&mut self, id: u128) -> (r: Result<bool, String>)
        ensures
            r == Ok::<bool, String>(old(self)@.contains_key(id)),
            final(self)@ == old(self)@.remove(id),
    {
        proof {
            use_type_invariant(&*self);
        }
        let mut store = Store::new();
        core::mem::swap(&mut self.store, &mut store);
        let removed = store.remove(id);
        self.store = store;
        Ok(removed)
    }

    /// Removes every task owned by `project_id` in one sweep and reports
    /// how many there were; all other tasks persist unchanged.
    pub fn delete_by_project_id(&mut self, project_id: u128) -> (r: Result<usize, String>)
        ensures
            match r {
                Ok(count) => {
                    &&& forall|k: u128| #[trigger] final(self)@.contains_key(k)
                        <==> old(self)@.contains_key(k) && old(self)@[k].project_id != project_id
                    &&& forall|k: u128| #[trigger] final(self)@.contains_key(k)
                        ==> final(self)@[k] == old(self)@[k]
                    &&& old(self)@.len() == final(self)@.len() + count
                },
                Err(_) => false,
            },
    {
        proof {
            use_type_invariant(&*self);
        }
        let mut store = Store::new();
        core::mem::swap(&mut self.store, &mut store);
        let count = store.remove_many(|t: &Task| -> (b: bool)
            ensures
                b == (t.project_id == project_id),
            {
                t.project_id == project_id
            });
        self.store = store;
        Ok(count)
    }
}

impl Default for TaskRepository {
    fn default() -> (r: Self)
        ensures
            r@ == Map::<u128, Task>::empty(),
    {
        TaskRepository::new()
    }
}

} // verus!
