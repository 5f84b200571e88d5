//! The project service: validation and orchestration above the project
//! repository. Every business rule lives here; the repository below is pure
//! storage. Identifiers and clock readings are drawn once per operation and
//! handed to a deterministic core (`create_project_with`,
//! `update_project_with`) whose contract pins the outcome down for every
//! value the draw may produce.

use vstd::prelude::*;
use vstd::string::StrSliceExecFns;
use crate::api_response::ApiError;
use crate::ids::fresh_id;
use crate::project::Project;
use crate::project::ProjectCreate;
use crate::project::ProjectUpdate;
use crate::project_repo::ProjectRepository;
use crate::time::creation_time;
use crate::time::creation_timestamp;
use crate::time::now_micros;
use crate::validate::MAX_NAME_CHARS;
use crate::validate::check_description;
use crate::validate::opt_view;
use crate::validate::trim_to_string;
use crate::validate::trimmed;
use crate::validate::valid_description;
use crate::validate::valid_name;

verus! {

/// Whether a creation payload passes validation.
pub open spec fn project_create_valid(data: ProjectCreate) -> bool {
    valid_name(data.name@) && valid_description(opt_view(data.description))
}

/// Whether a partial-update payload passes validation: the rules apply only
/// to the fields it provides.
pub open spec fn project_update_valid(data: ProjectUpdate) -> bool {
    &&& (data.name matches Some(n) ==> valid_name(n@))
    &&& valid_description(opt_view(data.description))
}

/// One successful creation: the returned record is fresh, carries the
/// trimmed name and the description as given, equal creation and update
/// timestamps, and the store afterwards is the store before plus exactly
/// that record.
pub open spec fn project_created(
    pre: Map<u128, Project>,
    post: Map<u128, Project>,
    data: ProjectCreate,
    p: Project,
) -> bool {
    &&& !pre.contains_key(p.id)
    &&& post == pre.insert(p.id, p)
    &&& p.name@ == trimmed(data.name@)
    &&& p.description == data.description
    &&& p.updated_at == p.created_at
    &&& p.wf()
}

/// One successful partial update: provided fields replace the old ones,
/// untouched fields persist, the identifier and creation time never change,
/// `updated_at` moves strictly forward whenever representable, and the
/// store afterwards differs in exactly that record.
pub open spec fn project_updated(
    pre: Map<u128, Project>,
    post: Map<u128, Project>,
    id: u128,
    data: ProjectUpdate,
    p: Project,
) -> bool {
    &&& pre.contains_key(id)
    &&& post == pre.insert(id, p)
    &&& p.id == id
    &&& p.name@ == (match data.name {
        Some(n) => trimmed(n@),
        None => pre[id].name@,
    })
    &&& p.description == (match data.description {
        Some(d) => Some(d),
        None => pre[id].description,
    })
    &&& p.created_at == pre[id].created_at
    &&& p.updated_at >= pre[id].updated_at
    &&& (pre[id].updated_at < i64::MAX ==> p.updated_at > pre[id].updated_at)
    &&& p.wf()
}

#[derive(Debug)]
pub struct ProjectService {
    repository: ProjectRepository,
}

impl View for ProjectService {
    type V = Map<u128, Project>;

    closed spec fn view(&self) -> Map<u128, Project> {
        self.repository@
    }
}

impl ProjectService {
    #[verifier::type_invariant]
    spec fn inv(self) -> bool {
        forall|k: u128| #[trigger] self.repository@.contains_key(k) ==> self.repository@[k].wf()
    }

    /// A service over the given repository, which must hold only records
    /// satisfying the model's field constraints.
    pub fn new(repository: ProjectRepository) -> (s: Self)
        requires
            forall|k: u128| #[trigger] repository@.contains_key(k) ==> repository@[k].wf(),
        ensures
            s@ == repository@,
    {
        ProjectService { repository }
    }

    /// The repository beneath this service.
    pub fn repository(&self) -> (r: &ProjectRepository)
        ensures
            r@ == self@,
    {
        &self.repository
    }

    /// The deterministic core of creation, taking the drawn identifier and
    /// clock reading as arguments: it succeeds exactly when the payload is
    /// valid and the identifier is unused.
    pub fn create_project_with(&mut self, id: u128, now: i64, data: ProjectCreate) -> (r: Result<
        Project,
        ApiError,
    >)
        ensures
            match r {
                Ok(p) => project_create_valid(data) && !old(self)@.contains_key(id) && p.id == id
                    && p.created_at == creation_time(now)
                    && project_created(old(self)@, final(self)@, data, p),
                Err(e) => final(self)@ == old(self)@ && match e {
                    ApiError::ValidationError { .. } => !project_create_valid(data),
                    ApiError::InternalServerError => project_create_valid(data)
                        && old(self)@.contains_key(id),
                    _ => false,
                },
            },
    {
        proof {
            use_type_invariant(&*self);
        }
        let ProjectCreate { name, description } = data;
        let trimmed_name = trim_to_string(name.as_str());
        if trimmed_name.as_str().unicode_len() == 0 {
            return Err(ApiError::validation_error("Project name cannot be empty"));
        }
        if name.as_str().unicode_len() > MAX_NAME_CHARS {
            return Err(ApiError::validation_error("Project name cannot exceed 200 characters"));
        }
        if !check_description(&description) {
            return Err(
                ApiError::validation_error("Project description cannot exceed 1000 characters"),
            );
        }
        let taken = match self.repository.find_by_id(id) {
            Ok(existing) => existing.is_some(),
            Err(_) => vstd::pervasive::unreached(),
        };
        if taken {
            return Err(ApiError::InternalServerError);
        }
        let ts = creation_timestamp(now);
        let project = Project {
            id,
            name: trimmed_name,
            description,
            created_at: ts,
            updated_at: ts,
        };
        let mut repository = ProjectRepository::new();
        core::mem::swap(&mut self.repository, &mut repository);
        let created = repository.create(project);
        self.repository = repository;
        match created {
            Ok(p) => Ok(p),
            Err(_) => vstd::pervasive::unreached(),
        }
    }

    /// Validates the payload, constructs a fresh project and persists it.
    /// Fails with `ValidationError` exactly on an invalid payload; an
    /// identifier collision (never expected of a fresh draw) surfaces as
    /// `InternalServerError` and changes nothing.
    pub fn create_project(&mut self, data: ProjectCreate) -> (r: Result<Project, ApiError>)
        ensures
            match r {
                Ok(p) => project_create_valid(data)
                    && project_created(old(self)@, final(self)@, data, p),
                Err(e) => final(self)@ == old(self)@ && match e {
                    ApiError::ValidationError { .. } => !project_create_valid(data),
                    ApiError::InternalServerError => project_create_valid(data),
                    _ => false,
                },
            },
    {
        let id = fresh_id();
        let now = now_micros();
        self.create_project_with(id, now, data)
    }

    /// Point read: the project under `id`, or `NotFound` exactly when there
    /// is none.
    pub fn get_project(&self, id: u128) -> (r: Result<Project, ApiError>)
        ensures
            match r {
                Ok(p) => self@.contains_key(id) && p == self@[id] && p.wf(),
                Err(e) => !self@.contains_key(id) && (e matches ApiError::NotFound { resource }
                    && resource@ == "Project"@),
            },
    {
        proof {
            use_type_invariant(&*self);
        }
        match self.repository.find_by_id(id) {
            Ok(Some(p)) => Ok(p),
            Ok(None) => Err(ApiError::not_found("Project")),
            Err(_) => vstd::pervasive::unreached(),
        }
    }

    /// A snapshot of all projects: every stored record exactly once, in
    /// unspecified order.
    pub fn list_projects(&self) -> (r: Result<Vec<Project>, ApiError>)
        ensures
            match r {
                Ok(v) => {
                    &&& v@.len() == self@.len()
                    &&& forall|i: int|
                        0 <= i < v@.len() ==> self@.contains_key((#[trigger] v@[i]).id)
                            && self@[v@[i].id] == v@[i] && v@[i].wf()
                    &&& forall|i: int, j: int|
                        0 <= i < j < v@.len() ==> (#[trigger] v@[i]).id != (#[trigger] v@[j]).id
                    &&& forall|k: u128| #[trigger] self@.contains_key(k)
                        ==> exists|i: int| 0 <= i < v@.len() && (#[trigger] v@[i]).id == k
                },
                Err(_) => false,
            },
    {
        proof {
            use_type_invariant(&*self);
        }
        match self.repository.find_all() {
            Ok(v) => Ok(v),
            Err(_) => vstd::pervasive::unreached(),
        }
    }

    /// The deterministic core of a partial update, taking the clock reading
    /// as an argument: it succeeds exactly when the payload is valid and
    /// the record exists.
    pub fn update_project_with(&mut self, id: u128, now: i64, data: ProjectUpdate) -> (r: Result<
        Project,
        ApiError,
    >)
        ensures
            match r {
                Ok(p) => project_update_valid(data)
                    && project_updated(old(self)@, final(self)@, id, data, p)
                    && p.updated_at == crate::time::bumped_time(now, old(self)@[id].updated_at),
                Err(e) => final(self)@ == old(self)@ && match e {
                    ApiError::ValidationError { .. } => !project_update_valid(data),
                    ApiError::NotFound { resource } => project_update_valid(data)
                        && !old(self)@.contains_key(id) && resource@ == "Project"@,
                    _ => false,
                },
            },
    {
        proof {
            use_type_invariant(&*self);
        }
        let ProjectUpdate { name, description } = data;
        let checked_name: Option<String> = match name {
            Some(n) => {
                let t = trim_to_string(n.as_str());
                if t.as_str().unicode_len() == 0 {
                    return Err(ApiError::validation_error("Project name cannot be empty"));
                }
                if n.as_str().unicode_len() > MAX_NAME_CHARS {
                    return Err(
                        ApiError::validation_error("Project name cannot exceed 200 characters"),
                    );
                }
                Some(t)
            },
            None => None,
        };
        if !check_description(&description) {
            return Err(
                ApiError::validation_error("Project description cannot exceed 1000 characters"),
            );
        }
        let mut project = match self.repository.find_by_id(id) {
            Ok(Some(p)) => p,
            Ok(None) => {
                return Err(ApiError::not_found("Project"));
            },
            Err(_) => vstd::pervasive::unreached(),
        };
        project.update(ProjectUpdate { name: checked_name, description }, now);
        let mut repository = ProjectRepository::new();
        core::mem::swap(&mut self.repository, &mut repository);
        let updated = repository.update(id, project);
        self.repository = repository;
        match updated {
            Ok(Some(p)) => Ok(p),
            Ok(None) => vstd::pervasive::unreached(),
            Err(_) => vstd::pervasive::unreached(),
        }
    }

    /// Validates the provided fields, merges them into the stored project
    /// and re-persists it, bumping `updated_at`. Fails with
    /// `ValidationError` exactly on an invalid payload and with `NotFound`
    /// exactly when the project does not exist.
    pub fn update_project(&mut self, id: u128, data: ProjectUpdate) -> (r: Result<
        Project,
        ApiError,
    >)
        ensures
            match r {
                Ok(p) => project_update_valid(data)
                    && project_updated(old(self)@, final(self)@, id, data, p),
                Err(e) => final(self)@ == old(self)@ && match e {
                    ApiError::ValidationError { .. } => !project_update_valid(data),
                    ApiError::NotFound { resource } => project_update_valid(data)
                        && !old(self)@.contains_key(id) && resource@ == "Project"@,
                    _ => false,
                },
            },
    {
        let now = now_micros();
        self.update_project_with(id, now, data)
    }

    /// Removes the project under `id`; fails with `NotFound` exactly when
    /// there is none. Does not touch any task store: cascading is the
    /// caller's orchestration, composed with the task service.
    pub fn delete_project(&mut self, id: u128) -> (r: Result<(), ApiError>)
        ensures
            final(self)@ == old(self)@.remove(id),
            match r {
                Ok(_) => old(self)@.contains_key(id),
                Err(e) => !old(self)@.contains_key(id) && (e matches ApiError::NotFound { resource }
                    && resource@ == "Project"@),
            },
    {
        proof {
            use_type_invariant(&*self);
        }
        let mut repository = ProjectRepository::new();
        core::mem::swap(&mut self.repository, &mut repository);
        let deleted = repository.delete(id);
        self.repository = repository;
        match deleted {
            Ok(true) => Ok(()),
            Ok(false) => Err(ApiError::not_found("Project")),
            Err(_) => vstd::pervasive::unreached(),
        }
    }
}

} // verus!
