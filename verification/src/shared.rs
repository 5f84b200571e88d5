//! The process-wide shared state: both services behind one verified
//! reader-writer lock, constructed once at startup and handed around by
//! shared reference. Readers proceed in parallel; a writer excludes both
//! other writers and all readers for the whole mutation, so no caller ever
//! observes a half-applied write — the lock hands a writer the one current
//! state and takes the whole new state back.
//!
//! A method here can only promise what holds of every interleaving: the
//! clauses of the underlying service contracts that do not mention the
//! store's state. The exact state-transition contracts live on
//! [`crate::project_service::ProjectService`] and
//! [`crate::task_service::TaskService`], which a single owner (or a single
//! writer, between acquire and release) gets in full.

use vstd::prelude::*;
use vstd::rwlock::RwLock;
use crate::api_response::ApiError;
use crate::project::Project;
use crate::project::ProjectCreate;
use crate::project::ProjectUpdate;
use crate::project_repo::ProjectRepository;
use crate::project_service::ProjectService;
use crate::project_service::project_create_valid;
use crate::project_service::project_update_valid;
use crate::task::Task;
use crate::task::TaskCreate;
use crate::task::TaskUpdate;
use crate::task_repo::TaskRepository;
use crate::task_service::TaskService;
use crate::task_service::task_create_valid;
use crate::task_service::task_update_valid;
use crate::validate::trimmed;

verus! {

struct Core {
    projects: ProjectService,
    tasks: TaskService,
}

/// Both services under one reader-writer exclusion. Referential checks at
/// task creation run against the same locked state the insertion goes to.
pub struct SharedServices {
    lock: RwLock<Core, spec_fn(Core) -> bool>,
}

impl SharedServices {
    #[verifier::type_invariant]
    spec fn wf(self) -> bool {
        forall|c: Core| #[trigger] self.lock.inv(c)
    }

    /// Shared state over two fresh, empty stores.
    pub fn new() -> SharedServices {
        let core = Core {
            projects: ProjectService::new(ProjectRepository::new()),
            tasks: TaskService::new(TaskRepository::new()),
        };
        SharedServices { lock: RwLock::new(core, Ghost(|c: Core| true)) }
    }

    pub fn create_project(&self, data: ProjectCreate) -> (r: Result<Project, ApiError>)
        ensures
            match r {
                Ok(p) => project_create_valid(data) && p.name@ == trimmed(data.name@)
                    && p.description == data.description && p.updated_at == p.created_at
                    && p.wf(),
                Err(e) => match e {
                    ApiError::ValidationError { .. } => !project_create_valid(data),
                    ApiError::InternalServerError => project_create_valid(data),
                    _ => false,
                },
            },
    {
        proof {
            use_type_invariant(&*self);
        }
        let (mut core, handle) = self.lock.acquire_write();
        let r = core.projects.create_project(data);
        handle.release_write(core);
        r
    }

    pub fn get_project(&self, id: u128) -> (r: Result<Project, ApiError>)
        ensures
            match r {
                Ok(p) => p.wf(),
                Err(e) => (e matches ApiError::NotFound { resource } && resource@ == "Project"@),
            },
    {
        let read = self.lock.acquire_read();
        let r = read.borrow().projects.get_project(id);
        read.release_read();
        r
    }

    pub fn list_projects(&self) -> (r: Result<Vec<Project>, ApiError>)
        ensures
            match r {
                Ok(v) => {
                    &&& forall|i: int| 0 <= i < v@.len() ==> (#[trigger] v@[i]).wf()
                    &&& forall|i: int, j: int|
                        0 <= i < j < v@.len() ==> (#[trigger] v@[i]).id != (#[trigger] v@[j]).id
                },
                Err(_) => false,
            },
    {
        let read = self.lock.acquire_read();
        let r = read.borrow().projects.list_projects();
        read.release_read();
        r
    }

    pub fn update_project(&self, id: u128, data: ProjectUpdate) -> (r: Result<Project, ApiError>)
        ensures
            match r {
                Ok(p) => {
                    &&& project_update_valid(data)
                    &&& p.id == id
                    &&& (data.name matches Some(n) ==> p.name@ == trimmed(n@))
                    &&& (data.description matches Some(d) ==> p.description == Some(d))
                    &&& p.wf()
                },
                Err(e) => match e {
                    ApiError::ValidationError { .. } => !project_update_valid(data),
                    ApiError::NotFound { resource } => project_update_valid(data)
                        && resource@ == "Project"@,
                    _ => false,
                },
            },
    {
        proof {
            use_type_invariant(&*self);
        }
        let (mut core, handle) = self.lock.acquire_write();
        let r = core.projects.update_project(id, data);
        handle.release_write(core);
        r
    }

    pub fn delete_project(&self, id: u128) -> (r: Result<(), ApiError>)
        ensures
            match r {
                Ok(_) => true,
                Err(e) => (e matches ApiError::NotFound { resource } && resource@ == "Project"@),
            },
    {
        proof {
            use_type_invariant(&*self);
        }
        let (mut core, handle) = self.lock.acquire_write();
        let r = core.projects.delete_project(id);
        handle.release_write(core);
        r
    }

    /// Creation checks the owning project against the very state the task
    /// is inserted into: both sit under this one exclusive hold.
    pub fn create_task(&self, data: TaskCreate) -> (r: Result<Task, ApiError>)
        ensures
            match r {
                Ok(t) => task_create_valid(data) && t.project_id == data.project_id
                    && t.title@ == trimmed(data.title@) && t.description == data.description
                    && t.done == false && t.updated_at == t.created_at && t.wf(),
                Err(e) => match e {
                    ApiError::ValidationError { .. } => !task_create_valid(data),
                    ApiError::NotFound { resource } => task_create_valid(data)
                        && resource@ == "Project"@,
                    ApiError::InternalServerError => task_create_valid(data),
                    _ => false,
                },
            },
    {
        proof {
            use_type_invariant(&*self);
        }
        let (mut core, handle) = self.lock.acquire_write();
        let r = core.tasks.create_task(core.projects.repository(), data);
        handle.release_write(core);
        r
    }

    pub fn get_task(&self, id: u128) -> (r: Result<Task, ApiError>)
        ensures
            match r {
                Ok(t) => t.wf(),
                Err(e) => (e matches ApiError::NotFound { resource } && resource@ == "Task"@),
            },
    {
        let read = self.lock.acquire_read();
        let r = read.borrow().tasks.get_task(id);
        read.release_read();
        r
    }

    pub fn list_tasks(&self) -> (r: Result<Vec<Task>, ApiError>)
        ensures
            match r {
                Ok(v) => {
                    &&& forall|i: int| 0 <= i < v@.len() ==> (#[trigger] v@[i]).wf()
                    &&& forall|i: int, j: int|
                        0 <= i < j < v@.len() ==> (#[trigger] v@[i]).id != (#[trigger] v@[j]).id
                },
                Err(_) => false,
            },
    {
        let read = self.lock.acquire_read();
        let r = read.borrow().tasks.list_tasks();
        read.release_read();
        r
    }

    /// One consistent filtered snapshot: project existence and the scan both
    /// read the same locked state.
    pub fn list_tasks_by_project(&self, project_id: u128) -> (r: Result<Vec<Task>, ApiError>)
        ensures
            match r {
                Ok(v) => {
                    &&& forall|i: int|
                        0 <= i < v@.len() ==> (#[trigger] v@[i]).project_id == project_id
                            && v@[i].wf()
                    &&& forall|i: int, j: int|
                        0 <= i < j < v@.len() ==> (#[trigger] v@[i]).id != (#[trigger] v@[j]).id
                },
                Err(e) => (e matches ApiError::NotFound { resource } && resource@ == "Project"@),
            },
    {
        let read = self.lock.acquire_read();
        let core = read.borrow();
        let r = core.tasks.list_tasks_by_project(core.projects.repository(), project_id);
        read.release_read();
        r
    }

    pub fn update_task(&self, id: u128, data: TaskUpdate) -> (r: Result<Task, ApiError>)
        ensures
            match r {
                Ok(t) => {
                    &&& task_update_valid(data)
                    &&& t.id == id
                    &&& (data.title matches Some(n) ==> t.title@ == trimmed(n@))
                    &&& (data.description matches Some(d) ==> t.description == Some(d))
                    &&& (data.done matches Some(b) ==> t.done == b)
                    &&& t.wf()
                },
                Err(e) => match e {
                    ApiError::ValidationError { .. } => !task_update_valid(data),
                    ApiError::NotFound { resource } => task_update_valid(data)
                        && resource@ == "Task"@,
                    _ => false,
                },
            },
    {
        proof {
            use_type_invariant(&*self);
        }
        let (mut core, handle) = self.lock.acquire_write();
        let r = core.tasks.update_task(id, data);
        handle.release_write(core);
        r
    }

    pub fn delete_task(&self, id: u128) -> (r: Result<(), ApiError>)
        ensures
            match r {
                Ok(_) => true,
                Err(e) => (e matches ApiError::NotFound { resource } && resource@ == "Task"@),
            },
    {
        proof {
            use_type_invariant(&*self);
        }
        let (mut core, handle) = self.lock.acquire_write();
        let r = core.tasks.delete_task(id);
        handle.release_write(core);
        r
    }

    /// The cascade sweep, one atomic hold: a concurrent filtered scan sees
    /// either every task of the project or none of them.
    pub fn delete_tasks_by_project(&self, project_id: u128) -> (r: Result<usize, ApiError>)
        ensures
            r is Ok,
    {
        proof {
            use_type_invariant(&*self);
        }
        let (mut core, handle) = self.lock.acquire_write();
        let r = core.tasks.delete_tasks_by_project(project_id);
        handle.release_write(core);
        r
    }
}

} // verus!
