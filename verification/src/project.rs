//! The project record and its creation and partial-update payloads.

use vstd::prelude::*;
use crate::time::bumped_time;
use crate::time::bump_timestamp;

verus! {

/// A project record. The identifier is assigned at creation and never
/// reassigned; `created_at` is set once and `updated_at` is bumped on every
/// successful mutation.
#[derive(Debug)]
pub struct Project {
    pub id: u128,
    pub name: String,
    pub description: Option<String>,
    pub created_at: i64,
    pub updated_at: i64,
}

/// The payload of a project creation request.
#[derive(Debug)]
pub struct ProjectCreate {
    pub name: String,
    pub description: Option<String>,
}

/// The payload of a partial project update: absent fields retain their
/// prior value.
#[derive(Debug)]
pub struct ProjectUpdate {
    pub name: Option<String>,
    pub description: Option<String>,
}

/// The record that merging a partial update into `p` at clock reading `now`
/// yields: provided fields replace the old ones, untouched fields persist,
/// the identifier and creation time never change, and `updated_at` is
/// bumped strictly past its old value whenever that is representable.
pub open spec fn merged_project(p: Project, u: ProjectUpdate, now: i64) -> Project {
    Project {
        id: p.id,
        name: match u.name {
            Some(n) => n,
            None => p.name,
        },
        description: match u.description {
            Some(d) => Some(d),
            None => p.description,
        },
        created_at: p.created_at,
        updated_at: bumped_time(now, p.updated_at),
    }
}

impl Project {
    /// Field constraints every stored project satisfies: timestamps are
    /// non-negative and ordered, the name is non-empty and bounded, and the
    /// description is bounded.
    pub open spec fn wf(self) -> bool {
        &&& 0 <= self.created_at <= self.updated_at
        &&& 1 <= self.name@.len() <= crate::validate::MAX_NAME_CHARS
        &&& (self.description matches Some(d) ==> d@.len() <= crate::validate::MAX_DESCRIPTION_CHARS)
    }

    /// A fresh project: identifier and timestamps are drawn here, the name
    /// and description are stored as given.
    pub fn new(name: String, description: Option<String>) -> (p: Project)
        ensures
            p.name == name,
            p.description == description,
            p.updated_at == p.created_at,
            p.created_at >= 0,
    {
        let now = crate::time::creation_timestamp(crate::time::now_micros());
        Project {
            id: crate::ids::fresh_id(),
            name,
            description,
            created_at: now,
            updated_at: now,
        }
    }

    /// Merges a partial update into this record at clock reading `now`.
    pub fn update(&mut self, update: ProjectUpdate, now: i64)
        ensures
            *final(self) == merged_project(*old(self), update, now),
    {
        let ProjectUpdate { name, description } = update;
        if let Some(n) = name {
            self.name = n;
        }
        if description.is_some() {
            self.description = description;
        }
        self.updated_at = bump_timestamp(now, self.updated_at);
    }
}

impl Clone for Project {
    fn clone(&self) -> (r: Self)
        ensures
            r == *self,
    {
        Project {
            id: self.id,
            name: self.name.clone(),
            description: match &self.description {
                Some(d) => Some(d.clone()),
                None => None,
            },
            created_at: self.created_at,
            updated_at: self.updated_at,
        }
    }
}

} // verus!
