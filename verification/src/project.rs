//! Projects: the top-level partition of templates, traces and events.

use vstd::prelude::*;
use crate::clock::Timestamp;
use crate::ident::Uuid;

verus! {

/// A project. A trace template names the project that owns it; traces and
/// events belong to a project through their templates.
#[derive(Debug, PartialEq, Eq)]
pub struct Project {
    pub project_uuid: Uuid,
    pub name: String,
    pub created_at: Timestamp,
}

/// What a [`Project`] holds, as mathematics.
pub struct ProjectModel {
    pub project_uuid: Uuid,
    pub name: Seq<char>,
    pub created_at: Timestamp,
}

impl View for Project {
    type V = ProjectModel;

    open spec fn view(&self) -> ProjectModel {
        ProjectModel {
            project_uuid: self.project_uuid,
            name: self.name@,
            created_at: self.created_at,
        }
    }
}

impl Clone for Project {
    fn clone(&self) -> (r: Self)
        ensures
            r@ == self@,
    {
        Project {
            project_uuid: self.project_uuid,
            name: self.name.clone(),
            created_at: self.created_at,
        }
    }
}

} // verus!
