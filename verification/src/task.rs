//! The task record and its creation and partial-update payloads. A task
//! belongs to one project for its whole life: the owning-project identifier
//! is set at creation and never mutated.

use vstd::prelude::*;
use crate::time::bumped_time;
use crate::time::bump_timestamp;

verus! {

/// A task record owned by the project named by `project_id`.
#[derive(Debug)]
pub struct Task {
    pub id: u128,
    pub project_id: u128,
    pub title: String,
    pub description: Option<String>,
    pub done: bool,
    pub created_at: i64,
    pub updated_at: i64,
}

/// The payload of a task creation request.
#[derive(Debug)]
pub struct TaskCreate {
    pub project_id: u128,
    pub title: String,
    pub description: Option<String>,
}

/// The payload of a partial task update: absent fields retain their prior
/// value. The owning project cannot be changed.
#[derive(Debug)]
pub struct TaskUpdate {
    pub title: Option<String>,
    pub description: Option<String>,
    pub done: Option<bool>,
}

/// The record that merging a partial update into `t` at clock reading `now`
/// yields: provided fields replace the old ones, untouched fields persist,
/// the identifier, owning project and creation time never change, and
/// `updated_at` is bumped strictly past its old value whenever that is
/// representable.
pub open spec fn merged_task(t: Task, u: TaskUpdate, now: i64) -> Task {
    Task {
        id: t.id,
        project_id: t.project_id,
        title: match u.title {
            Some(n) => n,
            None => t.title,
        },
        description: match u.description {
            Some(d) => Some(d),
            None => t.description,
        },
        done: match u.done {
            Some(b) => b,
            None => t.done,
        },
        created_at: t.created_at,
        updated_at: bumped_time(now, t.updated_at),
    }
}

impl Task {
    /// Field constraints every stored task satisfies: timestamps are
    /// non-negative and ordered, the title is non-empty and bounded, and
    /// the description is bounded.
    pub open spec fn wf(self) -> bool {
        &&& 0 <= self.created_at <= self.updated_at
        &&& 1 <= self.title@.len() <= crate::validate::MAX_NAME_CHARS
        &&& (self.description matches Some(d) ==> d@.len() <= crate::validate::MAX_DESCRIPTION_CHARS)
    }

    /// A fresh task owned by `project_id`: identifier and timestamps are
    /// drawn here, the title and description are stored as given, and the
    /// completion flag starts false.
    pub fn new(project_id: u128, title: String, description: Option<String>) -> (t: Task)
        ensures
            t.project_id == project_id,
            t.title == title,
            t.description == description,
            t.done == false,
            t.updated_at == t.created_at,
            t.created_at >= 0,
    {
        let now = crate::time::creation_timestamp(crate::time::now_micros());
        Task {
            id: crate::ids::fresh_id(),
            project_id,
            title,
            description,
            done: false,
            created_at: now,
            updated_at: now,
        }
    }

    /// Merges a partial update into this record at clock reading `now`.
    pub fn update(&mut self, update: TaskUpdate, now: i64)
        ensures
            *final(self) == merged_task(*old(self), update, now),
    {
        let TaskUpdate { title, description, done } = update;
        if let Some(n) = title {
            self.title = n;
        }
        if description.is_some() {
            self.description = description;
        }
        if let Some(b) = done {
            self.done = b;
        }
        self.updated_at = bump_timestamp(now, self.updated_at);
    }
}

impl Clone for Task {
    fn clone(&self) -> (r: Self)
        ensures
            r == *self,
    {
        Task {
            id: self.id,
            project_id: self.project_id,
            title: self.title.clone(),
            description: match &self.description {
                Some(d) => Some(d.clone()),
                None => None,
            },
            done: self.done,
            created_at: self.created_at,
            updated_at: self.updated_at,
        }
    }
}

} // verus!
