//! The task service: validation, referential checks against the project
//! repository, and the cascade-delete flow, above the task repository.
//! Creation checks that the owning project exists at call time; that check
//! and a concurrent project deletion are not atomic with each other — an
//! accepted gap of the design, not papered over here. Identifiers and clock
//! readings are drawn once per operation and handed to a deterministic core
//! whose contract pins the outcome down for every value the draw may
//! produce.

use vstd::prelude::*;
use vstd::string::StrSliceExecFns;
use crate::api_response::ApiError;
use crate::ids::fresh_id;
use crate::project_repo::ProjectRepository;
use crate::task::Task;
use crate::task::TaskCreate;
use crate::task::TaskUpdate;
use crate::task_repo::TaskRepository;
use crate::time::creation_time;
use crate::time::creation_timestamp;
use crate::time::now_micros;
use crate::validate::MAX_NAME_CHARS;
use crate::validate::check_description;
use crate::validate::opt_view;
use crate::validate::trim_to_string;
use crate::validate::trimmed;
use crate::validate::valid_description;
use crate::validate::valid_name;

verus! {

/// Whether a creation payload passes validation.
pub open spec fn task_create_valid(data: TaskCreate) -> bool {
    valid_name(data.title@) && valid_description(opt_view(data.description))
}

/// Whether a partial-update payload passes validation: the rules apply only
/// to the fields it provides.
pub open spec fn task_update_valid(data: TaskUpdate) -> bool {
    &&& (data.title matches Some(n) ==> valid_name(n@))
    &&& valid_description(opt_view(data.description))
}

/// One successful creation: the returned record is fresh, owned by the
/// requested project, not done, carries the trimmed title and the
/// description as given, equal creation and update timestamps, and the
/// store afterwards is the store before plus exactly that record.
pub open spec fn task_created(
    pre: Map<u128, Task>,
    post: Map<u128, Task>,
    data: TaskCreate,
    t: Task,
) -> bool {
    &&& !pre.contains_key(t.id)
    &&& post == pre.insert(t.id, t)
    &&& t.project_id == data.project_id
    &&& t.title@ == trimmed(data.title@)
    &&& t.description == data.description
    &&& t.done == false
    &&& t.updated_at == t.created_at
    &&& t.wf()
}

/// One successful partial update: provided fields replace the old ones,
/// untouched fields persist, the identifier, owning project and creation
/// time never change, `updated_at` moves strictly forward whenever
/// representable, and the store afterwards differs in exactly that record.
pub open spec fn task_updated(
    pre: Map<u128, Task>,
    post: Map<u128, Task>,
    id: u128,
    data: TaskUpdate,
    t: Task,
) -> bool {
    &&& pre.contains_key(id)
    &&& post == pre.insert(id, t)
    &&& t.id == id
    &&& t.project_id == pre[id].project_id
    &&& t.title@ == (match data.title {
        Some(n) => trimmed(n@),
        None => pre[id].title@,
    })
    &&& t.description == (match data.description {
        Some(d) => Some(d),
        None => pre[id].description,
    })
    &&& t.done == (match data.done {
        Some(b) => b,
        None => pre[id].done,
    })
    &&& t.created_at == pre[id].created_at
    &&& t.updated_at >= pre[id].updated_at
    &&& (pre[id].updated_at < i64::MAX ==> t.updated_at > pre[id].updated_at)
    &&& t.wf()
}

/// One cascade sweep: afterwards the store holds exactly the tasks not
/// owned by `project_id`, each unchanged, and `count` is how many were
/// removed.
pub open spec fn cascade_removed(
    pre: Map<u128, Task>,
    post: Map<u128, Task>,
    project_id: u128,
    count: int,
) -> bool {
    &&& forall|k: u128| #[trigger] post.contains_key(k)
        <==> pre.contains_key(k) && pre[k].project_id != project_id
    &&& forall|k: u128| #[trigger] post.contains_key(k) ==> post[k] == pre[k]
    &&& pre.len() == post.len() + count
}

#[derive(Debug)]
pub struct TaskService {
    task_repository: TaskRepository,
}

impl View for TaskService {
    type V = Map<u128, Task>;

    closed spec fn view(&self) -> Map<u128, Task> {
        self.task_repository@
    }
}

impl TaskService {
    #[verifier::type_invariant]
    spec fn inv(self) -> bool {
        forall|k: u128| #[trigger] self.task_repository@.contains_key(k)
            ==> self.task_repository@[k].wf()
    }

    /// A service over the given task repository, which must hold only
    /// records satisfying the model's field constraints. The project
    /// repository is not owned: the operations that check referential
    /// integrity borrow it per call.
    pub fn new(task_repository: TaskRepository) -> (s: Self)
        requires
            forall|k: u128| #[trigger] task_repository@.contains_key(k)
                ==> task_repository@[k].wf(),
        ensures
            s@ == task_repository@,
    {
        TaskService { task_repository }
    }

    /// The deterministic core of creation, taking the drawn identifier and
    /// clock reading as arguments: it succeeds exactly when the payload is
    /// valid, the owning project exists, and the identifier is unused.
    pub fn create_task_with(
        &mut self,
        projects: &ProjectRepository,
        id: u128,
        now: i64,
        data: TaskCreate,
    ) -> (r: Result<Task, ApiError>)
        ensures
            match r {
                Ok(t) => task_create_valid(data) && projects@.contains_key(data.project_id)
                    && !old(self)@.contains_key(id) && t.id == id
                    && t.created_at == creation_time(now)
                    && task_created(old(self)@, final(self)@, data, t),
                Err(e) => final(self)@ == old(self)@ && match e {
                    ApiError::ValidationError { .. } => !task_create_valid(data),
                    ApiError::NotFound { resource } => task_create_valid(data)
                        && !projects@.contains_key(data.project_id) && resource@ == "Project"@,
                    ApiError::InternalServerError => task_create_valid(data)
                        && projects@.contains_key(data.project_id)
                        && old(self)@.contains_key(id),
                    _ => false,
                },
            },
    {
        proof {
            use_type_invariant(&*self);
        }
        let TaskCreate { project_id, title, description } = data;
        let trimmed_title = trim_to_string(title.as_str());
        if trimmed_title.as_str().unicode_len() == 0 {
            return Err(ApiError::validation_error("Task title cannot be empty"));
        }
        if title.as_str().unicode_len() > MAX_NAME_CHARS {
            return Err(ApiError::validation_error("Task title cannot exceed 200 characters"));
        }
        if !check_description(&description) {
            return Err(
                ApiError::validation_error("Task description cannot exceed 1000 characters"),
            );
        }
        let project_exists = match projects.find_by_id(project_id) {
            Ok(existing) => existing.is_some(),
            Err(_) => vstd::pervasive::unreached(),
        };
        if !project_exists {
            return Err(ApiError::not_found("Project"));
        }
        let taken = match self.task_repository.find_by_id(id) {
            Ok(existing) => existing.is_some(),
            Err(_) => vstd::pervasive::unreached(),
        };
        if taken {
            return Err(ApiError::InternalServerError);
        }
        let ts = creation_timestamp(now);
        let task = Task {
            id,
            project_id,
            title: trimmed_title,
            description,
            done: false,
            created_at: ts,
            updated_at: ts,
        };
        let mut task_repository = TaskRepository::new();
        core::mem::swap(&mut self.task_repository, &mut task_repository);
        let created = task_repository.create(task);
        self.task_repository = task_repository;
        match created {
            Ok(t) => Ok(t),
            Err(_) => vstd::pervasive::unreached(),
        }
    }

    /// Validates the payload, checks that the owning project exists at call
    /// time, then constructs a fresh task and persists it. Fails with
    /// `ValidationError` exactly on an invalid payload and with
    /// `NotFound` (naming the project) exactly when the owning project is
    /// absent; an identifier collision (never expected of a fresh draw)
    /// surfaces as `InternalServerError` and changes nothing.
    pub fn create_task(&mut self, projects: &ProjectRepository, data: TaskCreate) -> (r: Result<
        Task,
        ApiError,
    >)
        ensures
            match r {
                Ok(t) => task_create_valid(data) && projects@.contains_key(data.project_id)
                    && task_created(old(self)@, final(self)@, data, t),
                Err(e) => final(self)@ == old(self)@ && match e {
                    ApiError::ValidationError { .. } => !task_create_valid(data),
                    ApiError::NotFound { resource } => task_create_valid(data)
                        && !projects@.contains_key(data.project_id) && resource@ == "Project"@,
                    ApiError::InternalServerError => task_create_valid(data)
                        && projects@.contains_key(data.project_id),
                    _ => false,
                },
            },
    {
        let id = fresh_id();
        let now = now_micros();
        self.create_task_with(projects, id, now, data)
    }

    /// Point read: the task under `id`, or `NotFound` exactly when there is
    /// none.
    pub fn get_task(&self, id: u128) -> (r: Result<Task, ApiError>)
        ensures
            match r {
                Ok(t) => self@.contains_key(id) && t == self@[id] && t.wf(),
                Err(e) => !self@.contains_key(id) && (e matches ApiError::NotFound { resource }
                    && resource@ == "Task"@),
            },
    {
        proof {
            use_type_invariant(&*self);
        }
        match self.task_repository.find_by_id(id) {
            Ok(Some(t)) => Ok(t),
            Ok(None) => Err(ApiError::not_found("Task")),
            Err(_) => vstd::pervasive::unreached(),
        }
    }

    /// A snapshot of all tasks: every stored record exactly once, in
    /// unspecified order.
    pub fn list_tasks(&self) -> (r: Result<Vec<Task>, ApiError>)
        ensures
            match r {
                Ok(v) => {
                    &&& v@.len() == self@.len()
                    &&& forall|i: int|
                        0 <= i < v@.len() ==> self@.contains_key((#[trigger] v@[i]).id)
                            && self@[v@[i].id] == v@[i] && v@[i].wf()
                    &&& forall|i: int, j: int|
                        0 <= i < j < v@.len() ==> (#[trigger] v@[i]).id != (#[trigger] v@[j]).id
                    &&& forall|k: u128| #[trigger] self@.contains_key(k)
                        ==> exists|i: int| 0 <= i < v@.len() && (#[trigger] v@[i]).id == k
                },
                Err(_) => false,
            },
    {
        proof {
            use_type_invariant(&*self);
        }
        match self.task_repository.find_all() {
            Ok(v) => Ok(v),
            Err(_) => vstd::pervasive::unreached(),
        }
    }

    /// The tasks owned by one project, provided that project still exists:
    /// every matching record exactly once, in unspecified order. Fails with
    /// `NotFound` exactly when the project is absent, even if tasks for it
    /// linger.
    pub fn list_tasks_by_project(&self, projects: &ProjectRepository, project_id: u128) -> (r:
        Result<Vec<Task>, ApiError>)
        ensures
            match r {
                Ok(v) => {
                    &&& projects@.contains_key(project_id)
                    &&& forall|i: int|
                        0 <= i < v@.len() ==> self@.contains_key((#[trigger] v@[i]).id)
                            && self@[v@[i].id] == v@[i] && v@[i].project_id == project_id
                            && v@[i].wf()
                    &&& forall|i: int, j: int|
                        0 <= i < j < v@.len() ==> (#[trigger] v@[i]).id != (#[trigger] v@[j]).id
                    &&& forall|k: u128|
                        #[trigger] self@.contains_key(k) && self@[k].project_id == project_id
                            ==> exists|i: int| 0 <= i < v@.len() && (#[trigger] v@[i]).id == k
                },
                Err(e) => !projects@.contains_key(project_id) && (e matches ApiError::NotFound {
                    resource,
                } && resource@ == "Project"@),
            },
    {
        proof {
            use_type_invariant(&*self);
        }
        let project_exists = match projects.find_by_id(project_id) {
            Ok(existing) => existing.is_some(),
            Err(_) => vstd::pervasive::unreached(),
        };
        if !project_exists {
            return Err(ApiError::not_found("Project"));
        }
        match self.task_repository.find_by_project_id(project_id) {
            Ok(v) => Ok(v),
            Err(_) => vstd::pervasive::unreached(),
        }
    }

    /// The deterministic core of a partial update, taking the clock reading
    /// as an argument: it succeeds exactly when the payload is valid and
    /// the record exists. The project linkage is not re-validated.
    pub fn update_task_with(&mut self, id: u128, now: i64, data: TaskUpdate) -> (r: Result<
        Task,
        ApiError,
    >)
        ensures
            match r {
                Ok(t) => task_update_valid(data)
                    && task_updated(old(self)@, final(self)@, id, data, t)
                    && t.updated_at == crate::time::bumped_time(now, old(self)@[id].updated_at),
                Err(e) => final(self)@ == old(self)@ && match e {
                    ApiError::ValidationError { .. } => !task_update_valid(data),
                    ApiError::NotFound { resource } => task_update_valid(data)
                        && !old(self)@.contains_key(id) && resource@ == "Task"@,
                    _ => false,
                },
            },
    {
        proof {
            use_type_invariant(&*self);
        }
        let TaskUpdate { title, description, done } = data;
        let checked_title: Option<String> = match title {
            Some(n) => {
                let t = trim_to_string(n.as_str());
                if t.as_str().unicode_len() == 0 {
                    return Err(ApiError::validation_error("Task title cannot be empty"));
                }
                if n.as_str().unicode_len() > MAX_NAME_CHARS {
                    return Err(
                        ApiError::validation_error("Task title cannot exceed 200 characters"),
                    );
                }
                Some(t)
            },
            None => None,
        };
        if !check_description(&description) {
            return Err(
                ApiError::validation_error("Task description cannot exceed 1000 characters"),
            );
        }
        let mut task = match self.task_repository.find_by_id(id) {
            Ok(Some(t)) => t,
            Ok(None) => {
                return Err(ApiError::not_found("Task"));
            },
            Err(_) => vstd::pervasive::unreached(),
        };
        task.update(TaskUpdate { title: checked_title, description, done }, now);
        let mut task_repository = TaskRepository::new();
        core::mem::swap(&mut self.task_repository, &mut task_repository);
        let updated = task_repository.update(id, task);
        self.task_repository = task_repository;
        match updated {
            Ok(Some(t)) => Ok(t),
            Ok(None) => vstd::pervasive::unreached(),
            Err(_) => vstd::pervasive::unreached(),
        }
    }

    /// Validates the provided fields, merges them into the stored task and
    /// re-persists it, bumping `updated_at`. Fails with `ValidationError`
    /// exactly on an invalid payload and with `NotFound` exactly when the
    /// task does not exist.
    pub fn update_task(&mut self, id: u128, data: TaskUpdate) -> (r: Result<Task, ApiError>)
        ensures
            match r {
                Ok(t) => task_update_valid(data)
                    && task_updated(old(self)@, final(self)@, id, data, t),
                Err(e) => final(self)@ == old(self)@ && match e {
                    ApiError::ValidationError { .. } => !task_update_valid(data),
                    ApiError::NotFound { resource } => task_update_valid(data)
                        && !old(self)@.contains_key(id) && resource@ == "Task"@,
                    _ => false,
                },
            },
    {
        let now = now_micros();
        self.update_task_with(id, now, data)
    }

    /// Removes the task under `id`; fails with `NotFound` exactly when
    /// there is none.
    pub fn delete_task(&mut self, id: u128) -> (r: Result<(), ApiError>)
        ensures
            final(self)@ == old(self)@.remove(id),
            match r {
                Ok(_) => old(self)@.contains_key(id),
                Err(e) => !old(self)@.contains_key(id) && (e matches ApiError::NotFound { resource }
                    && resource@ == "Task"@),
            },
    {
        proof {
            use_type_invariant(&*self);
        }
        let mut task_repository = TaskRepository::new();
        core::mem::swap(&mut self.task_repository, &mut task_repository);
        let deleted = task_repository.delete(id);
        self.task_repository = task_repository;
        match deleted {
            Ok(true) => Ok(()),
            Ok(false) => Err(ApiError::not_found("Task")),
            Err(_) => vstd::pervasive::unreached(),
        }
    }

    /// The cascade sweep: removes every task owned by `project_id` and
    /// reports how many there were; all other tasks persist unchanged.
    /// Idempotent, and safe to compose with the project delete on either
    /// side — there is no transaction spanning the two stores.
    pub fn delete_tasks_by_project(&mut self, project_id: u128) -> (r: Result<usize, ApiError>)
        ensures
            match r {
                Ok(count) => cascade_removed(old(self)@, final(self)@, project_id, count as int),
                Err(_) => false,
            },
    {
        proof {
            use_type_invariant(&*self);
        }
        let mut task_repository = TaskRepository::new();
        core::mem::swap(&mut self.task_repository, &mut task_repository);
        let removed = task_repository.delete_by_project_id(project_id);
        self.task_repository = task_repository;
        match removed {
            Ok(count) => Ok(count),
            Err(_) => vstd::pervasive::unreached(),
        }
    }
}

} // verus!
