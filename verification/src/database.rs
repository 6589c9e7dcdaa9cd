//! The database of projects, as far as the pages read it.
use crate::ids::ProjectId;
use crate::ordered_hash_map::{supported_key, OrderedHashMap};
use crate::project::Project;
use std::time::SystemTime;
use vstd::prelude::*;

verus! {

/// The projects in their order, and when the database last changed.
#[derive(Debug)]
pub struct Database {
    pub projects: OrderedHashMap<ProjectId, Project>,
    pub last_changed_time: SystemTime,
}

/// The project with the given id.
pub open spec fn project_of(database: Database, id: ProjectId) -> Option<Project> {
    if database.projects.entries().contains_key(id) {
        Some(database.projects.entries()[id])
    } else {
        None
    }
}

pub proof fn lemma_project_ids_are_supported_keys()
    ensures
        supported_key::<ProjectId>(),
{
    broadcast use vstd::std_specs::hash::group_hash_axioms;
    broadcast use vstd::laws_eq::group_laws_eq;
}

impl Database {
    pub fn projects(&self) -> (r: &OrderedHashMap<ProjectId, Project>)
        ensures
            *r == self.projects,
    {
        &self.projects
    }

    pub fn get_project(&self, id: &ProjectId) -> (r: Option<&Project>)
        ensures
            match r {
                Some(p) => project_of(*self, *id) == Some(*p),
                None => project_of(*self, *id) is None,
            },
    {
        proof {
            lemma_project_ids_are_supported_keys();
        }
        self.projects.get(id)
    }
}

} // verus!
