//! The library-wide guarantees, stated and proved over the abstract store
//! maps that every service contract speaks of. Each proof function here is
//! a law of the service layer: its premises are exactly what the services'
//! own `ensures` clauses give their callers.

use vstd::prelude::*;
use crate::project::Project;
use crate::project::ProjectCreate;
use crate::project::ProjectUpdate;
use crate::project_service::project_created;
use crate::project_service::project_updated;
use crate::task::Task;
use crate::task::TaskCreate;
use crate::task::TaskUpdate;
use crate::task_service::cascade_removed;
use crate::task_service::task_created;
use crate::task_service::task_updated;

verus! {

/// What a point read of `m` at `id` returns: the stored record, or absence.
pub open spec fn lookup<V>(m: Map<u128, V>, id: u128) -> Option<V> {
    if m.contains_key(id) {
        Some(m[id])
    } else {
        None
    }
}

/// One step that inserts some record under a fresh identifier — the shape
/// every successful creation has at the store level.
pub open spec fn fresh_insert_step<V>(pre: Map<u128, V>, post: Map<u128, V>, id: u128) -> bool {
    &&& !pre.contains_key(id)
    &&& exists|v: V| post == #[trigger] pre.insert(id, v)
}

/// Uniqueness, and no lost writes: across any run of successful creations
/// (`states` the stores between them, `ids` the identifiers returned), the
/// identifiers are pairwise distinct, every one of them is still present at
/// the end, and the final store grew by exactly one record per creation —
/// so a final snapshot holds at least as many records as there were calls.
pub proof fn lemma_creation_chain<V>(states: Seq<Map<u128, V>>, ids: Seq<u128>)
    requires
        states.len() == ids.len() + 1,
        states[0].dom().finite(),
        forall|i: int|
            0 <= i < ids.len() ==> #[trigger] fresh_insert_step(states[i], states[i + 1], ids[i]),
    ensures
        ids.no_duplicates(),
        forall|i: int| 0 <= i < ids.len() ==> states.last().contains_key(#[trigger] ids[i]),
        states.last().dom().finite(),
        states.last().len() == states[0].len() + ids.len(),
    decreases ids.len(),
{
    if ids.len() == 0 {
        assert(states.last() == states[0]);
    } else {
        let n = ids.len() as int;
        let prefix_states = states.drop_last();
        let prefix_ids = ids.drop_last();
        assert forall|i: int| 0 <= i < prefix_ids.len() implies #[trigger] fresh_insert_step(
            prefix_states[i],
            prefix_states[i + 1],
            prefix_ids[i],
        ) by {
            assert(fresh_insert_step(states[i], states[i + 1], ids[i]));
        };
        lemma_creation_chain(prefix_states, prefix_ids);
        let pre = states[n - 1];
        let post = states[n];
        assert(prefix_states.last() == pre);
        assert(fresh_insert_step(pre, post, ids[n - 1]));
        let v = choose|v: V| post == #[trigger] pre.insert(ids[n - 1], v);
        assert(post.dom() =~= pre.dom().insert(ids[n - 1]));
        assert(states.last() == post);
        assert forall|i: int| 0 <= i < n implies states.last().contains_key(
            #[trigger] ids[i],
        ) by {
            if i < n - 1 {
                assert(prefix_ids[i] == ids[i]);
                assert(pre.contains_key(ids[i]));
            }
        };
        assert forall|i: int, j: int|
            0 <= i < ids.len() && 0 <= j < ids.len() && i != j implies ids[i] != ids[j] by {
            if i < n - 1 && j < n - 1 {
                assert(prefix_ids[i] == ids[i] && prefix_ids[j] == ids[j]);
            } else if j == n - 1 {
                assert(prefix_ids[i] == ids[i]);
                assert(pre.contains_key(ids[i]));
            } else {
                assert(prefix_ids[j] == ids[j]);
                assert(pre.contains_key(ids[j]));
            }
        };
    }
}

/// A successful project creation is a fresh insertion, so runs of creations
/// fall under `lemma_creation_chain`.
pub proof fn lemma_project_create_is_fresh_insert(
    pre: Map<u128, Project>,
    post: Map<u128, Project>,
    data: ProjectCreate,
    p: Project,
)
    requires
        project_created(pre, post, data, p),
    ensures
        fresh_insert_step(pre, post, p.id),
{
    assert(post == pre.insert(p.id, p));
}

/// A successful task creation is a fresh insertion, so runs of creations
/// fall under `lemma_creation_chain`.
pub proof fn lemma_task_create_is_fresh_insert(
    pre: Map<u128, Task>,
    post: Map<u128, Task>,
    data: TaskCreate,
    t: Task,
)
    requires
        task_created(pre, post, data, t),
    ensures
        fresh_insert_step(pre, post, t.id),
{
    assert(post == pre.insert(t.id, t));
}

/// Read-your-write for project creation: an immediate point read by the
/// returned identifier sees exactly the record just written.
pub proof fn lemma_project_create_then_get(
    pre: Map<u128, Project>,
    post: Map<u128, Project>,
    data: ProjectCreate,
    p: Project,
)
    requires
        project_created(pre, post, data, p),
    ensures
        lookup(post, p.id) == Some(p),
{
}

/// Read-your-write for project update: an immediate point read by the
/// updated identifier sees exactly the record the update returned.
pub proof fn lemma_project_update_then_get(
    pre: Map<u128, Project>,
    post: Map<u128, Project>,
    id: u128,
    data: ProjectUpdate,
    p: Project,
)
    requires
        project_updated(pre, post, id, data, p),
    ensures
        lookup(post, id) == Some(p),
{
}

/// Read-your-write for task creation.
pub proof fn lemma_task_create_then_get(
    pre: Map<u128, Task>,
    post: Map<u128, Task>,
    data: TaskCreate,
    t: Task,
)
    requires
        task_created(pre, post, data, t),
    ensures
        lookup(post, t.id) == Some(t),
{
}

/// Read-your-write for task update.
pub proof fn lemma_task_update_then_get(
    pre: Map<u128, Task>,
    post: Map<u128, Task>,
    id: u128,
    data: TaskUpdate,
    t: Task,
)
    requires
        task_updated(pre, post, id, data, t),
    ensures
        lookup(post, id) == Some(t),
{
}

/// Absence after delete: once `id` is removed, a point read of it sees
/// absence, and every other identifier reads exactly as before — so a full
/// snapshot afterwards excludes precisely the removed record.
pub proof fn lemma_absent_after_delete<V>(pre: Map<u128, V>, id: u128)
    ensures
        lookup(pre.remove(id), id) is None,
        forall|k: u128| k != id ==> #[trigger] lookup(pre.remove(id), k) == lookup(pre, k),
{
}

/// Partial update preserves untouched fields: updating only the title of a
/// task leaves its description, completion flag, owning project, identifier
/// and creation time unchanged, while `updated_at` strictly increases. (The
/// one timestamp with no strict successor is excluded; no real clock
/// reaches it.)
pub proof fn lemma_partial_update_preserves_untouched(
    pre: Map<u128, Task>,
    post: Map<u128, Task>,
    id: u128,
    data: TaskUpdate,
    t: Task,
)
    requires
        task_updated(pre, post, id, data, t),
        data.description is None,
        data.done is None,
        pre[id].updated_at < i64::MAX,
    ensures
        t.description == pre[id].description,
        t.done == pre[id].done,
        t.project_id == pre[id].project_id,
        t.id == id,
        t.created_at == pre[id].created_at,
        t.updated_at > pre[id].updated_at,
{
}

/// The identifiers of the tasks in `m` owned by `project_id`.
pub open spec fn tasks_of(m: Map<u128, Task>, project_id: u128) -> Set<u128> {
    m.dom().filter(|k: u128| m[k].project_id == project_id)
}

/// Splitting a finite set by a subset: the whole is exactly the subset plus
/// the rest.
proof fn lemma_len_split<A>(s: Set<A>, t: Set<A>)
    requires
        s.finite(),
        t.subset_of(s),
    ensures
        t.finite(),
        s.difference(t).finite(),
        s.len() == t.len() + s.difference(t).len(),
    decreases s.len(),
{
    vstd::set_lib::lemma_len_subset(t, s);
    if t.len() == 0 {
        assert(t =~= Set::<A>::empty());
        assert(s.difference(t) =~= s);
    } else {
        let a = t.choose();
        assert(t.contains(a));
        lemma_len_split(s.remove(a), t.remove(a));
        assert(s.remove(a).difference(t.remove(a)) =~= s.difference(t));
    }
}

/// Cascade completeness: the sweep reports exactly the number of tasks the
/// project owned beforehand, and afterwards the project owns none — a
/// subsequent filtered scan comes back empty.
pub proof fn lemma_cascade_complete(
    pre: Map<u128, Task>,
    post: Map<u128, Task>,
    project_id: u128,
    count: int,
)
    requires
        pre.dom().finite(),
        cascade_removed(pre, post, project_id, count),
    ensures
        count == tasks_of(pre, project_id).len(),
        tasks_of(post, project_id) =~= Set::<u128>::empty(),
{
    assert(post.dom().subset_of(pre.dom()));
    lemma_len_split(pre.dom(), post.dom());
    assert(tasks_of(pre, project_id) =~= pre.dom().difference(post.dom()));
    assert(tasks_of(post, project_id) =~= Set::<u128>::empty());
}

} // verus!
